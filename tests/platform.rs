use marksman_launcher::platform::{arch_from_name, binary_name, lookup_program, os_from_name, Arch, Os};
use marksman_launcher::resolve::{resolve, Action};

#[test]
fn os_names_are_read() {
    assert_eq!(os_from_name("macos"), Os::MacOs);
    assert_eq!(os_from_name("linux"), Os::Linux);
    assert_eq!(os_from_name("windows"), Os::Windows);
    assert_eq!(os_from_name("freebsd"), Os::Other);
    assert_eq!(os_from_name(""), Os::Other);
}

#[test]
fn arch_names_are_read() {
    assert_eq!(arch_from_name("x86_64"), Arch::X86_64);
    assert_eq!(arch_from_name("aarch64"), Arch::Aarch64);
    assert_eq!(arch_from_name("riscv64"), Arch::Other);
}

#[test]
fn binary_table_rows() {
    for arch in [Arch::X86_64, Arch::Aarch64, Arch::Other] {
        assert_eq!(binary_name(Os::MacOs, arch), Some("marksman-macos".to_string()));
        assert_eq!(binary_name(Os::Windows, arch), Some("marksman.exe".to_string()));
        assert_eq!(binary_name(Os::Other, arch), None);
    }
    assert_eq!(binary_name(Os::Linux, Arch::X86_64), Some("marksman-linux-x64".to_string()));
    assert_eq!(binary_name(Os::Linux, Arch::Aarch64), Some("marksman-linux-arm64".to_string()));
    assert_eq!(binary_name(Os::Linux, Arch::Other), None);
}

#[test]
fn resolve_without_path_follows_table() {
    assert_eq!(resolve(None, Os::MacOs, Arch::Other), Action::LaunchBundled("marksman-macos".to_string()));
    assert_eq!(resolve(None, Os::Windows, Arch::X86_64), Action::LaunchBundled("marksman.exe".to_string()));
    assert_eq!(resolve(None, Os::Linux, Arch::X86_64), Action::LaunchBundled("marksman-linux-x64".to_string()));
    assert_eq!(resolve(None, Os::Linux, Arch::Aarch64), Action::LaunchBundled("marksman-linux-arm64".to_string()));
    assert_eq!(resolve(None, Os::Linux, Arch::Other), Action::NoOp);
    assert_eq!(resolve(None, Os::Other, Arch::X86_64), Action::NoOp);
}

#[test]
fn configured_path_wins_on_every_platform() {
    for os in [Os::MacOs, Os::Linux, Os::Windows, Os::Other] {
        for arch in [Arch::X86_64, Arch::Aarch64, Arch::Other] {
            assert_eq!(
                resolve(Some("/usr/bin/myserver"), os, arch),
                Action::LaunchExplicit("/usr/bin/myserver".to_string())
            );
        }
    }
}

#[test]
fn empty_path_is_treated_as_absent() {
    assert_eq!(resolve(Some(""), Os::Linux, Arch::X86_64), Action::LaunchBundled("marksman-linux-x64".to_string()));
    assert_eq!(resolve(Some(""), Os::Other, Arch::Other), Action::NoOp);
}

#[test]
fn lookup_program_by_volt_os() {
    assert_eq!(lookup_program(Some("windows")), "where");
    assert_eq!(lookup_program(Some("linux")), "which");
    assert_eq!(lookup_program(Some("macos")), "which");
    assert_eq!(lookup_program(None), "which");
}
