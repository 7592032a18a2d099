//! Making sure that the WebView runtime, which the shell needs, is there.
use vstd::prelude::*;

verus! {

/// What a step of the WebView check reports back.
#[derive(Clone, Copy, Debug, PartialEq, Eq)]
pub enum WebviewEvent {
    /// The runtime was looked for; `installed` where an install was tried before.
    Checked { available: bool, installed: bool },
    /// The user answered whether to install the runtime.
    Answered(bool),
    /// The install finished, or failed.
    Installed(bool),
}

/// The next thing to do.
#[derive(Clone, Copy, Debug, PartialEq, Eq)]
pub enum WebviewAction {
    /// Look for the runtime.
    Check,
    /// Ask the user whether to install it.
    AskInstall,
    /// Install it.
    Install,
    /// The runtime is there; go on.
    Ready,
    /// The user declined, or the install failed: open the download page where
    /// `open_website`, then exit with status 1.
    Exit { open_website: bool },
    /// An install that succeeded left no runtime: stop the start-up, asking
    /// for a manual install.
    Fatal,
}

/// The action that follows an event.
pub open spec fn webview_step(e: WebviewEvent) -> WebviewAction {
    match e {
        WebviewEvent::Checked { available, installed } => if available {
            WebviewAction::Ready
        } else if installed {
            WebviewAction::Fatal
        } else {
            WebviewAction::AskInstall
        },
        WebviewEvent::Answered(yes) => if yes {
            WebviewAction::Install
        } else {
            WebviewAction::Exit { open_website: false }
        },
        WebviewEvent::Installed(ok) => if ok {
            WebviewAction::Check
        } else {
            WebviewAction::Exit { open_website: true }
        },
    }
}

/// Decides the next step of the WebView check: a missing runtime is
/// installed only where the user agrees, and checked once more after.
pub fn ensure_webview(e: WebviewEvent) -> (r: WebviewAction)
    ensures
        r == webview_step(e),
{
    match e {
        WebviewEvent::Checked { available, installed } => if available {
            WebviewAction::Ready
        } else if installed {
            WebviewAction::Fatal
        } else {
            WebviewAction::AskInstall
        },
        WebviewEvent::Answered(yes) => if yes {
            WebviewAction::Install
        } else {
            WebviewAction::Exit { open_website: false }
        },
        WebviewEvent::Installed(ok) => if ok {
            WebviewAction::Check
        } else {
            WebviewAction::Exit { open_website: true }
        },
    }
}

} // verus!
