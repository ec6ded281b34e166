//! Texts the launcher hands to the host: error messages and the release URL.
use vstd::prelude::*;

verus! {

pub open spec fn not_found_text(path: Seq<char>) -> Seq<char> {
    "server path "@ + path + " couldn't be found, please check"@
}

pub open spec fn download_failure_text() -> Seq<char> {
    "Unable to download Marksman, please use server path in the settings."@
}

pub open spec fn failure_text(details: Seq<char>) -> Seq<char> {
    "plugin returned with error: "@ + details
}

pub open spec fn release_url(file_name: Seq<char>) -> Seq<char> {
    "https://github.com/artempyanykh/marksman/releases/download/2023-06-01/"@ + file_name
}

/// The message shown when a configured server path cannot be found.
pub fn not_found_message(path: &str) -> (r: String)
    ensures
        r@ == not_found_text(path@),
{
    String::from_str("server path ").concat(path).concat(" couldn't be found, please check")
}

/// The message shown when the bundled server cannot be provisioned.
pub fn download_failure_message() -> (r: String)
    ensures
        r@ == download_failure_text(),
{
    String::from_str("Unable to download Marksman, please use server path in the settings.")
}

/// The message shown for any other failure, carrying its description.
pub fn failure_message(details: &str) -> (r: String)
    ensures
        r@ == failure_text(details@),
{
    String::from_str("plugin returned with error: ").concat(details)
}

/// Where the release of a bundled server binary is downloaded from.
pub fn download_url(file_name: &str) -> (r: String)
    ensures
        r@ == release_url(file_name@),
{
    String::from_str("https://github.com/artempyanykh/marksman/releases/download/2023-06-01/").concat(
        file_name,
    )
}

} // verus!
