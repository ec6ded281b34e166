//! Platform facts reported by the host, and the bundled binary each selects.
use vstd::prelude::*;

verus! {

/// Operating system as named by the host.
#[derive(Clone, Copy, Debug, PartialEq, Eq, Structural)]
pub enum Os {
    MacOs,
    Linux,
    Windows,
    Other,
}

/// CPU architecture as named by the host.
#[derive(Clone, Copy, Debug, PartialEq, Eq, Structural)]
pub enum Arch {
    X86_64,
    Aarch64,
    Other,
}

/// Text equality of two string slices.
fn same_text(a: &str, b: &str) -> (r: bool)
    ensures
        r == (a@ == b@),
{
    let x = a.to_owned();
    let y = b.to_owned();
    x == y
}

pub open spec fn os_of(name: Seq<char>) -> Os {
    if name == "macos"@ {
        Os::MacOs
    } else if name == "linux"@ {
        Os::Linux
    } else if name == "windows"@ {
        Os::Windows
    } else {
        Os::Other
    }
}

pub open spec fn arch_of(name: Seq<char>) -> Arch {
    if name == "x86_64"@ {
        Arch::X86_64
    } else if name == "aarch64"@ {
        Arch::Aarch64
    } else {
        Arch::Other
    }
}

/// Reads the host's operating-system name (`macos`, `linux`, `windows`).
pub fn os_from_name(name: &str) -> (r: Os)
    ensures
        r == os_of(name@),
{
    if same_text(name, "macos") {
        Os::MacOs
    } else if same_text(name, "linux") {
        Os::Linux
    } else if same_text(name, "windows") {
        Os::Windows
    } else {
        Os::Other
    }
}

/// Reads the host's architecture name (`x86_64`, `aarch64`).
pub fn arch_from_name(name: &str) -> (r: Arch)
    ensures
        r == arch_of(name@),
{
    if same_text(name, "x86_64") {
        Arch::X86_64
    } else if same_text(name, "aarch64") {
        Arch::Aarch64
    } else {
        Arch::Other
    }
}

/// The file name of the prebuilt server for a platform, if one is published.
/// The architecture matters on Linux only.
pub open spec fn bundled_binary(os: Os, arch: Arch) -> Option<Seq<char>> {
    match os {
        Os::MacOs => Some("marksman-macos"@),
        Os::Windows => Some("marksman.exe"@),
        Os::Linux => match arch {
            Arch::X86_64 => Some("marksman-linux-x64"@),
            Arch::Aarch64 => Some("marksman-linux-arm64"@),
            Arch::Other => None,
        },
        Os::Other => None,
    }
}

pub open spec fn str_opt(o: Option<&str>) -> Option<Seq<char>> {
    match o {
        Some(s) => Some(s@),
        None => None,
    }
}

pub open spec fn text_opt(o: Option<String>) -> Option<Seq<char>> {
    match o {
        Some(s) => Some(s@),
        None => None,
    }
}

/// Selects the prebuilt server binary for the platform.
pub fn binary_name(os: Os, arch: Arch) -> (r: Option<String>)
    ensures
        text_opt(r) == bundled_binary(os, arch),
{
    match os {
        Os::MacOs => Some(String::from_str("marksman-macos")),
        Os::Windows => Some(String::from_str("marksman.exe")),
        Os::Linux => match arch {
            Arch::X86_64 => Some(String::from_str("marksman-linux-x64")),
            Arch::Aarch64 => Some(String::from_str("marksman-linux-arm64")),
            Arch::Other => None,
        },
        Os::Other => None,
    }
}

/// The command that looks an executable up on the search path: `where` when
/// the host's `VOLT_OS` value is `windows`, `which` otherwise (also when the
/// value is missing).
pub open spec fn lookup_program_of(volt_os: Option<Seq<char>>) -> Seq<char> {
    if volt_os == Some("windows"@) {
        "where"@
    } else {
        "which"@
    }
}

pub fn lookup_program(volt_os: Option<&str>) -> (r: String)
    ensures
        r@ == lookup_program_of(str_opt(volt_os)),
{
    match volt_os {
        Some(s) => {
            if same_text(s, "windows") {
                String::from_str("where")
            } else {
                String::from_str("which")
            }
        },
        None => String::from_str("which"),
    }
}

} // verus!
