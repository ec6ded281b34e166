//! Choosing between a configured server path and the bundled binary.
use vstd::prelude::*;
use crate::platform::{Os, Arch, bundled_binary, binary_name, str_opt};

verus! {

/// What the launcher decided to run.
#[derive(Clone, Debug, PartialEq, Eq)]
pub enum Action {
    /// The configured path, to be looked up on the search path.
    LaunchExplicit(String),
    /// The prebuilt binary of this file name, provisioned next to the plugin.
    LaunchBundled(String),
    /// Nothing to run: the platform has no prebuilt binary.
    NoOp,
}

pub enum ActionView {
    LaunchExplicit(Seq<char>),
    LaunchBundled(Seq<char>),
    NoOp,
}

impl View for Action {
    type V = ActionView;

    open spec fn view(&self) -> ActionView {
        match self {
            Action::LaunchExplicit(p) => ActionView::LaunchExplicit(p@),
            Action::LaunchBundled(f) => ActionView::LaunchBundled(f@),
            Action::NoOp => ActionView::NoOp,
        }
    }
}

/// A configured, non-empty server path wins; otherwise the platform decides.
pub open spec fn resolve_spec(server_path: Option<Seq<char>>, os: Os, arch: Arch) -> ActionView {
    if server_path is Some && server_path.unwrap().len() > 0 {
        ActionView::LaunchExplicit(server_path.unwrap())
    } else {
        match bundled_binary(os, arch) {
            Some(f) => ActionView::LaunchBundled(f),
            None => ActionView::NoOp,
        }
    }
}

/// Decides what to launch from the configured server path and the platform.
pub fn resolve(server_path: Option<&str>, os: Os, arch: Arch) -> (r: Action)
    ensures
        r@ == resolve_spec(str_opt(server_path), os, arch),
{
    if let Some(p) = server_path {
        if !p.is_empty() {
            return Action::LaunchExplicit(p.to_owned());
        }
    }
    match binary_name(os, arch) {
        Some(f) => Action::LaunchBundled(f),
        None => Action::NoOp,
    }
}

/// Without a configured path, each platform gets the binary its row names,
/// and every other platform gets nothing.
pub proof fn lemma_platform_table(os: Os, arch: Arch)
    ensures
        resolve_spec(None, Os::MacOs, arch) == ActionView::LaunchBundled("marksman-macos"@),
        resolve_spec(None, Os::Windows, arch) == ActionView::LaunchBundled("marksman.exe"@),
        resolve_spec(None, Os::Linux, Arch::X86_64) == ActionView::LaunchBundled(
            "marksman-linux-x64"@,
        ),
        resolve_spec(None, Os::Linux, Arch::Aarch64) == ActionView::LaunchBundled(
            "marksman-linux-arm64"@,
        ),
        resolve_spec(None, Os::Linux, Arch::Other) == ActionView::NoOp,
        resolve_spec(None, Os::Other, arch) == ActionView::NoOp,
{
}

/// A non-empty configured path is launched as given, whatever the platform.
pub proof fn lemma_explicit_path_ignores_platform(
    path: Seq<char>,
    os1: Os,
    arch1: Arch,
    os2: Os,
    arch2: Arch,
)
    requires
        path.len() > 0,
    ensures
        resolve_spec(Some(path), os1, arch1) == ActionView::LaunchExplicit(path),
        resolve_spec(Some(path), os1, arch1) == resolve_spec(Some(path), os2, arch2),
{
}

/// An empty configured path counts as no path at all.
pub proof fn lemma_empty_path_is_absent(os: Os, arch: Arch)
    ensures
        resolve_spec(Some(Seq::<char>::empty()), os, arch) == resolve_spec(None, os, arch),
{
}

} // verus!
