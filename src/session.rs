//! The launch procedure as a state machine.
//!
//! The host side performs each [`Command`] (a process lookup, a file check,
//! a download, a file write, an environment query) and reports the outcome
//! as an [`Event`]; [`step`] decides what comes next. A run ends in
//! [`Stage::Done`] after exactly one notification (a server start or an
//! error message), or after none when the platform has no prebuilt binary.
use vstd::prelude::*;
use crate::messages::{
    not_found_text, download_failure_text, failure_text, release_url, not_found_message,
    download_failure_message, failure_message, download_url,
};
use crate::platform::{Os, Arch, lookup_program_of, lookup_program, str_opt};
use crate::resolve::{Action, ActionView, resolve_spec, resolve};
use crate::uri::{url_parse_of, url_join_of, text_result, parse_url, join_url};

verus! {

/// Where a launch stands.
#[derive(Clone, Debug, PartialEq, Eq)]
pub enum Stage {
    /// Waiting for the search-path lookup of a configured server path.
    LookingUp { path: String },
    /// Waiting to learn whether the bundled binary is already on disk.
    CheckingFile { file_name: String },
    /// Waiting for the download of the bundled binary.
    Fetching { file_name: String },
    /// Waiting for the downloaded bytes to be written to disk.
    Writing { file_name: String },
    /// Waiting for a partly written file to be removed after a failed write.
    Discarding { file_name: String },
    /// Waiting for the plugin's installation directory URI.
    LocatingInstallDir { file_name: String },
    /// Finished: nothing more happens.
    Done,
}

/// The outcome of the last command, reported by the host side.
#[derive(Debug, PartialEq, Eq)]
pub enum Event {
    /// The lookup command ran; `found` is whether it reported success.
    LookupFinished { found: bool },
    /// Whether the file named by the check exists.
    FileChecked { exists: bool },
    /// The downloaded body, or `None` when the download failed.
    Fetched { body: Option<Vec<u8>> },
    /// Whether the file was created and fully written.
    Written { ok: bool },
    /// The removal of a partly written file was attempted.
    Removed,
    /// The installation directory URI, or the text of why it is unavailable.
    InstallDirFound { uri: Result<String, String> },
}

/// What the host side is asked to do next.
#[derive(Clone, Debug, PartialEq, Eq)]
pub enum Command {
    /// Run `program` with `path` as its one argument and report its success.
    RunLookup { program: String, path: String },
    /// Report whether a file of this name exists in the working directory.
    CheckFile { file_name: String },
    /// GET this URL and report the whole body.
    Fetch { url: String },
    /// Create this file and write these bytes to it.
    WriteFile { file_name: String, bytes: Vec<u8> },
    /// Remove this file, if it exists.
    RemoveFile { file_name: String },
    /// Report the plugin's installation directory URI.
    QueryInstallDir,
    /// Start the language server at `uri` with `args`, for documents of
    /// language `language` whose file names match `pattern`.
    StartServer { uri: String, args: Vec<String>, language: String, pattern: String },
    /// Show this error message.
    ShowError { message: String },
    /// Nothing to do: the run is over.
    Stop,
}

pub enum StageView {
    LookingUp { path: Seq<char> },
    CheckingFile { file_name: Seq<char> },
    Fetching { file_name: Seq<char> },
    Writing { file_name: Seq<char> },
    Discarding { file_name: Seq<char> },
    LocatingInstallDir { file_name: Seq<char> },
    Done,
}

pub enum EventView {
    LookupFinished { found: bool },
    FileChecked { exists: bool },
    Fetched { body: Option<Seq<u8>> },
    Written { ok: bool },
    Removed,
    InstallDirFound { uri: Result<Seq<char>, Seq<char>> },
}

pub enum CommandView {
    RunLookup { program: Seq<char>, path: Seq<char> },
    CheckFile { file_name: Seq<char> },
    Fetch { url: Seq<char> },
    WriteFile { file_name: Seq<char>, bytes: Seq<u8> },
    RemoveFile { file_name: Seq<char> },
    QueryInstallDir,
    StartServer { uri: Seq<char>, args: Seq<String>, language: Seq<char>, pattern: Seq<char> },
    ShowError { message: Seq<char> },
    Stop,
}

impl View for Stage {
    type V = StageView;

    open spec fn view(&self) -> StageView {
        match self {
            Stage::LookingUp { path } => StageView::LookingUp { path: path@ },
            Stage::CheckingFile { file_name } => StageView::CheckingFile { file_name: file_name@ },
            Stage::Fetching { file_name } => StageView::Fetching { file_name: file_name@ },
            Stage::Writing { file_name } => StageView::Writing { file_name: file_name@ },
            Stage::Discarding { file_name } => StageView::Discarding { file_name: file_name@ },
            Stage::LocatingInstallDir { file_name } => StageView::LocatingInstallDir {
                file_name: file_name@,
            },
            Stage::Done => StageView::Done,
        }
    }
}

impl View for Event {
    type V = EventView;

    open spec fn view(&self) -> EventView {
        match self {
            Event::LookupFinished { found } => EventView::LookupFinished { found: *found },
            Event::FileChecked { exists } => EventView::FileChecked { exists: *exists },
            Event::Fetched { body } => EventView::Fetched {
                body: match body {
                    Some(b) => Some(b@),
                    None => None,
                },
            },
            Event::Written { ok } => EventView::Written { ok: *ok },
            Event::Removed => EventView::Removed,
            Event::InstallDirFound { uri } => EventView::InstallDirFound { uri: text_result(*uri) },
        }
    }
}

impl View for Command {
    type V = CommandView;

    open spec fn view(&self) -> CommandView {
        match self {
            Command::RunLookup { program, path } => CommandView::RunLookup {
                program: program@,
                path: path@,
            },
            Command::CheckFile { file_name } => CommandView::CheckFile { file_name: file_name@ },
            Command::Fetch { url } => CommandView::Fetch { url: url@ },
            Command::WriteFile { file_name, bytes } => CommandView::WriteFile {
                file_name: file_name@,
                bytes: bytes@,
            },
            Command::RemoveFile { file_name } => CommandView::RemoveFile { file_name: file_name@ },
            Command::QueryInstallDir => CommandView::QueryInstallDir,
            Command::StartServer { uri, args, language, pattern } => CommandView::StartServer {
                uri: uri@,
                args: args@,
                language: language@,
                pattern: pattern@,
            },
            Command::ShowError { message } => CommandView::ShowError { message: message@ },
            Command::Stop => CommandView::Stop,
        }
    }
}

/// Whether a command is one of the two notifications the host receives.
pub open spec fn is_notification(c: CommandView) -> bool {
    c is StartServer || c is ShowError
}

/// Whether `e` answers the command that led to stage `s`.
pub open spec fn fits(s: StageView, e: EventView) -> bool {
    match s {
        StageView::LookingUp { .. } => e is LookupFinished,
        StageView::CheckingFile { .. } => e is FileChecked,
        StageView::Fetching { .. } => e is Fetched,
        StageView::Writing { .. } => e is Written,
        StageView::Discarding { .. } => e is Removed,
        StageView::LocatingInstallDir { .. } => e is InstallDirFound,
        StageView::Done => false,
    }
}

/// Ends the run with a server start at the URI, or with the error's message.
pub open spec fn launch_spec(uri: Result<Seq<char>, Seq<char>>) -> (StageView, CommandView) {
    match uri {
        Ok(u) => (
            StageView::Done,
            CommandView::StartServer {
                uri: u,
                args: Seq::empty(),
                language: "markdown"@,
                pattern: "**/*.md"@,
            },
        ),
        Err(e) => (StageView::Done, CommandView::ShowError { message: failure_text(e) }),
    }
}

/// The URI of a configured server path.
pub open spec fn explicit_uri(path: Seq<char>) -> Result<Seq<char>, Seq<char>> {
    url_parse_of("urn:"@ + path)
}

/// The URI of a bundled binary: its file name joined to the installation
/// directory URI.
pub open spec fn bundled_uri(install_dir: Seq<char>, file_name: Seq<char>) -> Result<
    Seq<char>,
    Seq<char>,
> {
    match url_parse_of(install_dir) {
        Ok(base) => url_join_of(base, file_name),
        Err(e) => Err(e),
    }
}

/// The first stage and command of a run.
pub open spec fn start_spec(
    server_path: Option<Seq<char>>,
    volt_os: Option<Seq<char>>,
    os: Os,
    arch: Arch,
) -> (StageView, CommandView) {
    match resolve_spec(server_path, os, arch) {
        ActionView::LaunchExplicit(p) => (
            StageView::LookingUp { path: p },
            CommandView::RunLookup { program: lookup_program_of(volt_os), path: p },
        ),
        ActionView::LaunchBundled(f) => (
            StageView::CheckingFile { file_name: f },
            CommandView::CheckFile { file_name: f },
        ),
        ActionView::NoOp => (StageView::Done, CommandView::Stop),
    }
}

/// The next stage and command after event `e` in stage `s`. An event that
/// does not fit the stage changes nothing.
pub open spec fn step_spec(s: StageView, e: EventView) -> (StageView, CommandView) {
    match (s, e) {
        (StageView::LookingUp { path }, EventView::LookupFinished { found }) => {
            if found {
                launch_spec(explicit_uri(path))
            } else {
                (StageView::Done, CommandView::ShowError { message: not_found_text(path) })
            }
        },
        (StageView::CheckingFile { file_name }, EventView::FileChecked { exists }) => {
            if exists {
                (StageView::LocatingInstallDir { file_name }, CommandView::QueryInstallDir)
            } else {
                (StageView::Fetching { file_name }, CommandView::Fetch { url: release_url(file_name) })
            }
        },
        (StageView::Fetching { file_name }, EventView::Fetched { body }) => match body {
            Some(b) => (
                StageView::Writing { file_name },
                CommandView::WriteFile { file_name, bytes: b },
            ),
            None => (
                StageView::Done,
                CommandView::ShowError { message: download_failure_text() },
            ),
        },
        (StageView::Writing { file_name }, EventView::Written { ok }) => {
            if ok {
                (StageView::LocatingInstallDir { file_name }, CommandView::QueryInstallDir)
            } else {
                (StageView::Discarding { file_name }, CommandView::RemoveFile { file_name })
            }
        },
        (StageView::Discarding { .. }, EventView::Removed) => (
            StageView::Done,
            CommandView::ShowError { message: download_failure_text() },
        ),
        (StageView::LocatingInstallDir { file_name }, EventView::InstallDirFound { uri }) => {
            match uri {
                Ok(d) => launch_spec(bundled_uri(d, file_name)),
                Err(e) => (StageView::Done, CommandView::ShowError { message: failure_text(e) }),
            }
        },
        _ => (s, CommandView::Stop),
    }
}

impl Stage {
    /// Whether `e` answers the command that led to this stage.
    pub fn accepts(&self, e: &Event) -> (r: bool)
        ensures
            r == fits(self@, e@),
    {
        match self {
            Stage::LookingUp { .. } => matches!(e, Event::LookupFinished { .. }),
            Stage::CheckingFile { .. } => matches!(e, Event::FileChecked { .. }),
            Stage::Fetching { .. } => matches!(e, Event::Fetched { .. }),
            Stage::Writing { .. } => matches!(e, Event::Written { .. }),
            Stage::Discarding { .. } => matches!(e, Event::Removed),
            Stage::LocatingInstallDir { .. } => matches!(e, Event::InstallDirFound { .. }),
            Stage::Done => false,
        }
    }
}

/// Begins a run: looks up a configured, non-empty server path with the
/// search command that `volt_os` selects, or checks for the platform's
/// bundled binary, or stops at once when the platform has none.
pub fn start(server_path: Option<&str>, volt_os: Option<&str>, os: Os, arch: Arch) -> (r: (
    Stage,
    Command,
))
    ensures
        (r.0@, r.1@) == start_spec(str_opt(server_path), str_opt(volt_os), os, arch),
{
    match resolve(server_path, os, arch) {
        Action::LaunchExplicit(p) => {
            let program = lookup_program(volt_os);
            let path = p.clone();
            (Stage::LookingUp { path: p }, Command::RunLookup { program, path })
        },
        Action::LaunchBundled(f) => {
            let file_name = f.clone();
            (Stage::CheckingFile { file_name: f }, Command::CheckFile { file_name })
        },
        Action::NoOp => (Stage::Done, Command::Stop),
    }
}

/// Ends a run with the server start at `uri`, or with the message of the
/// error that kept the URI from being built.
pub fn launch_with(uri: Result<String, String>) -> (r: (Stage, Command))
    ensures
        (r.0@, r.1@) == launch_spec(text_result(uri)),
{
    match uri {
        Ok(u) => (
            Stage::Done,
            Command::StartServer {
                uri: u,
                args: Vec::new(),
                language: String::from_str("markdown"),
                pattern: String::from_str("**/*.md"),
            },
        ),
        Err(e) => (Stage::Done, Command::ShowError { message: failure_message(e.as_str()) }),
    }
}

/// Builds the URI of a configured server path.
pub fn explicit_server_uri(path: &str) -> (r: Result<String, String>)
    ensures
        text_result(r) == explicit_uri(path@),
{
    let text = String::from_str("urn:").concat(path);
    parse_url(text.as_str())
}

/// Builds the URI of a bundled binary from the installation directory URI.
pub fn bundled_server_uri(install_dir: &str, file_name: &str) -> (r: Result<String, String>)
    ensures
        text_result(r) == bundled_uri(install_dir@, file_name@),
{
    match parse_url(install_dir) {
        Ok(base) => join_url(base.as_str(), file_name),
        Err(e) => Err(e),
    }
}

/// Advances a run by one event.
pub fn step(stage: Stage, event: Event) -> (r: (Stage, Command))
    requires
        fits(stage@, event@),
    ensures
        (r.0@, r.1@) == step_spec(stage@, event@),
{
    match stage {
        Stage::LookingUp { path } => {
            if let Event::LookupFinished { found } = event {
                if found {
                    launch_with(explicit_server_uri(path.as_str()))
                } else {
                    (Stage::Done, Command::ShowError { message: not_found_message(path.as_str()) })
                }
            } else {
                (Stage::Done, Command::Stop)
            }
        },
        Stage::CheckingFile { file_name } => {
            if let Event::FileChecked { exists } = event {
                if exists {
                    (Stage::LocatingInstallDir { file_name }, Command::QueryInstallDir)
                } else {
                    let url = download_url(file_name.as_str());
                    (Stage::Fetching { file_name }, Command::Fetch { url })
                }
            } else {
                (Stage::Done, Command::Stop)
            }
        },
        Stage::Fetching { file_name } => {
            if let Event::Fetched { body } = event {
                match body {
                    Some(bytes) => {
                        let name = file_name.clone();
                        (Stage::Writing { file_name }, Command::WriteFile { file_name: name, bytes })
                    },
                    None => (
                        Stage::Done,
                        Command::ShowError { message: download_failure_message() },
                    ),
                }
            } else {
                (Stage::Done, Command::Stop)
            }
        },
        Stage::Writing { file_name } => {
            if let Event::Written { ok } = event {
                if ok {
                    (Stage::LocatingInstallDir { file_name }, Command::QueryInstallDir)
                } else {
                    let name = file_name.clone();
                    (Stage::Discarding { file_name }, Command::RemoveFile { file_name: name })
                }
            } else {
                (Stage::Done, Command::Stop)
            }
        },
        Stage::Discarding { .. } => (
            Stage::Done,
            Command::ShowError { message: download_failure_message() },
        ),
        Stage::LocatingInstallDir { file_name } => {
            if let Event::InstallDirFound { uri } = event {
                match uri {
                    Ok(dir) => launch_with(bundled_server_uri(dir.as_str(), file_name.as_str())),
                    Err(e) => (Stage::Done, Command::ShowError { message: failure_message(e.as_str()) }),
                }
            } else {
                (Stage::Done, Command::Stop)
            }
        },
        Stage::Done => (Stage::Done, Command::Stop),
    }
}

} // verus!
