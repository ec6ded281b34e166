use marksman_launcher::messages::{download_failure_message, download_url, failure_message, not_found_message};
use marksman_launcher::platform::{Arch, Os};
use marksman_launcher::session::{
    bundled_server_uri, explicit_server_uri, launch_with, start, step, Command, Event, Stage,
};

const INSTALL_DIR: &str = "file:///home/user/.lapce/plugins/marksman/";

fn started(uri: &str) -> Command {
    Command::StartServer {
        uri: uri.to_string(),
        args: vec![],
        language: "markdown".to_string(),
        pattern: "**/*.md".to_string(),
    }
}

fn is_notification(c: &Command) -> bool {
    matches!(c, Command::StartServer { .. } | Command::ShowError { .. })
}

/// Feeds the events in turn and returns every command issued.
fn drive(first: (Stage, Command), events: Vec<Event>) -> (Stage, Vec<Command>) {
    let (mut stage, cmd) = first;
    let mut cmds = vec![cmd];
    for e in events {
        assert!(stage.accepts(&e));
        let (next, cmd) = step(stage, e);
        stage = next;
        cmds.push(cmd);
    }
    (stage, cmds)
}

#[test]
fn messages_are_exact() {
    assert_eq!(not_found_message("/no/such/binary"), "server path /no/such/binary couldn't be found, please check");
    assert_eq!(download_failure_message(), "Unable to download Marksman, please use server path in the settings.");
    assert_eq!(failure_message("boom"), "plugin returned with error: boom");
    assert_eq!(
        download_url("marksman-linux-x64"),
        "https://github.com/artempyanykh/marksman/releases/download/2023-06-01/marksman-linux-x64"
    );
}

#[test]
fn uris_are_built_by_the_url_crate() {
    assert_eq!(explicit_server_uri("/usr/bin/myserver"), Ok("urn:/usr/bin/myserver".to_string()));
    assert_eq!(
        bundled_server_uri(INSTALL_DIR, "marksman-linux-x64"),
        Ok("file:///home/user/.lapce/plugins/marksman/marksman-linux-x64".to_string())
    );
    assert_eq!(
        bundled_server_uri("file:///home/user/plugins/marksman", "marksman.exe"),
        Ok("file:///home/user/plugins/marksman.exe".to_string())
    );
    assert_eq!(
        bundled_server_uri("not a url", "marksman.exe"),
        Err("relative URL without a base".to_string())
    );
}

#[test]
fn launch_with_reports_uri_errors() {
    assert_eq!(launch_with(Ok("urn:x".to_string())), (Stage::Done, started("urn:x")));
    assert_eq!(
        launch_with(Err("bad".to_string())),
        (Stage::Done, Command::ShowError { message: "plugin returned with error: bad".to_string() })
    );
}

#[test]
fn scenario_explicit_path_found() {
    let first = start(Some("/usr/bin/myserver"), Some("linux"), Os::Linux, Arch::X86_64);
    assert_eq!(
        first.1,
        Command::RunLookup { program: "which".to_string(), path: "/usr/bin/myserver".to_string() }
    );
    let (stage, cmds) = drive(first, vec![Event::LookupFinished { found: true }]);
    assert_eq!(stage, Stage::Done);
    assert_eq!(cmds[1], started("urn:/usr/bin/myserver"));
}

#[test]
fn scenario_explicit_path_on_windows_uses_where() {
    let (_, cmd) = start(Some("C:\\marksman.exe"), Some("windows"), Os::Windows, Arch::X86_64);
    assert_eq!(cmd, Command::RunLookup { program: "where".to_string(), path: "C:\\marksman.exe".to_string() });
}

#[test]
fn scenario_explicit_path_missing() {
    let first = start(Some("/no/such/binary"), None, Os::Other, Arch::Other);
    let (stage, cmds) = drive(first, vec![Event::LookupFinished { found: false }]);
    assert_eq!(stage, Stage::Done);
    assert_eq!(
        cmds[1],
        Command::ShowError { message: "server path /no/such/binary couldn't be found, please check".to_string() }
    );
    assert_eq!(cmds.iter().filter(|c| is_notification(c)).count(), 1);
}

#[test]
fn scenario_bundled_present() {
    let first = start(None, Some("linux"), Os::Linux, Arch::X86_64);
    assert_eq!(first.1, Command::CheckFile { file_name: "marksman-linux-x64".to_string() });
    let (stage, cmds) = drive(
        first,
        vec![
            Event::FileChecked { exists: true },
            Event::InstallDirFound { uri: Ok(INSTALL_DIR.to_string()) },
        ],
    );
    assert_eq!(stage, Stage::Done);
    assert_eq!(cmds[1], Command::QueryInstallDir);
    assert_eq!(cmds[2], started("file:///home/user/.lapce/plugins/marksman/marksman-linux-x64"));
    assert!(!cmds.iter().any(|c| matches!(c, Command::Fetch { .. } | Command::WriteFile { .. })));
}

#[test]
fn scenario_bundled_downloaded() {
    let first = start(Some(""), None, Os::Linux, Arch::X86_64);
    let body = vec![0x7f, b'E', b'L', b'F'];
    let (stage, cmds) = drive(
        first,
        vec![
            Event::FileChecked { exists: false },
            Event::Fetched { body: Some(body.clone()) },
            Event::Written { ok: true },
            Event::InstallDirFound { uri: Ok(INSTALL_DIR.to_string()) },
        ],
    );
    assert_eq!(stage, Stage::Done);
    assert_eq!(
        cmds[1],
        Command::Fetch {
            url: "https://github.com/artempyanykh/marksman/releases/download/2023-06-01/marksman-linux-x64"
                .to_string()
        }
    );
    assert_eq!(cmds[2], Command::WriteFile { file_name: "marksman-linux-x64".to_string(), bytes: body });
    assert_eq!(cmds[3], Command::QueryInstallDir);
    assert_eq!(cmds[4], started("file:///home/user/.lapce/plugins/marksman/marksman-linux-x64"));
    assert_eq!(cmds.iter().filter(|c| is_notification(c)).count(), 1);
}

#[test]
fn scenario_download_fails() {
    let first = start(None, None, Os::Linux, Arch::X86_64);
    let (stage, cmds) = drive(
        first,
        vec![Event::FileChecked { exists: false }, Event::Fetched { body: None }],
    );
    assert_eq!(stage, Stage::Done);
    assert_eq!(
        cmds[2],
        Command::ShowError {
            message: "Unable to download Marksman, please use server path in the settings.".to_string()
        }
    );
    assert!(!cmds.iter().any(|c| matches!(c, Command::WriteFile { .. })));
    assert_eq!(cmds.iter().filter(|c| is_notification(c)).count(), 1);
}

#[test]
fn write_failure_removes_file_then_shows_download_error() {
    let first = start(None, None, Os::MacOs, Arch::Aarch64);
    let (stage, cmds) = drive(
        first,
        vec![
            Event::FileChecked { exists: false },
            Event::Fetched { body: Some(vec![1, 2, 3]) },
            Event::Written { ok: false },
            Event::Removed,
        ],
    );
    assert_eq!(stage, Stage::Done);
    assert_eq!(cmds[3], Command::RemoveFile { file_name: "marksman-macos".to_string() });
    assert_eq!(cmds[4], Command::ShowError { message: download_failure_message() });
    assert_eq!(cmds.iter().filter(|c| is_notification(c)).count(), 1);
}

#[test]
fn missing_install_dir_is_reported() {
    let first = start(None, None, Os::Windows, Arch::Other);
    assert_eq!(first.1, Command::CheckFile { file_name: "marksman.exe".to_string() });
    let (stage, cmds) = drive(
        first,
        vec![
            Event::FileChecked { exists: true },
            Event::InstallDirFound { uri: Err("environment variable not found".to_string()) },
        ],
    );
    assert_eq!(stage, Stage::Done);
    assert_eq!(
        cmds[2],
        Command::ShowError { message: "plugin returned with error: environment variable not found".to_string() }
    );
}

#[test]
fn scenario_unsupported_platform() {
    let (stage, cmd) = start(None, Some("freebsd"), Os::Other, Arch::X86_64);
    assert_eq!(stage, Stage::Done);
    assert_eq!(cmd, Command::Stop);
    assert!(!stage.accepts(&Event::FileChecked { exists: true }));
    let (stage, cmd) = start(None, None, Os::Linux, Arch::Other);
    assert_eq!(stage, Stage::Done);
    assert_eq!(cmd, Command::Stop);
}

#[test]
fn events_must_answer_the_stage() {
    let (stage, _) = start(None, None, Os::Linux, Arch::Aarch64);
    assert!(stage.accepts(&Event::FileChecked { exists: true }));
    assert!(!stage.accepts(&Event::LookupFinished { found: true }));
    assert!(!stage.accepts(&Event::Written { ok: true }));
}
