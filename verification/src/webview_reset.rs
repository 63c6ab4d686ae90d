//! Resetting the WebView's stored permissions.
//!
//! Permissions granted inside the WebView live in its data folder, which is
//! locked while the WebView runs. A reset is therefore requested by leaving a
//! marker file and closing the application; the next start finds the marker
//! before the WebView is initialised, deletes the data folder and removes the
//! marker.

use vstd::prelude::*;

verus! {

/// The operating system family the shell runs on.
#[derive(Clone, Copy, Debug, PartialEq, Eq)]
pub enum Platform {
    Windows,
    Linux,
    MacOs,
    Other,
}

/// Name of the WebView data folder on `platform`, as a sequence of characters.
pub open spec fn webview_folder_name(platform: Platform) -> Seq<char> {
    match platform {
        Platform::Windows => "EBWebView"@,
        _ => "WebKit"@,
    }
}

/// Name of the folder, below the application's local data directory, in which
/// the platform's WebView keeps its data: WebView2 on Windows, WebKit
/// everywhere else.
pub fn get_webview_folder_name(platform: Platform) -> (name: &'static str)
    ensures
        name@ == webview_folder_name(platform),
{
    match platform {
        Platform::Windows => "EBWebView",
        Platform::Linux => "WebKit",
        Platform::MacOs => "WebKit",
        Platform::Other => "WebKit",
    }
}

/// Name of the marker file, as a sequence of characters.
pub open spec fn marker_file_name() -> Seq<char> {
    ".reset_permissions"@
}

/// Name of the marker file. It lies directly in the application's local data
/// directory, beside the WebView's data folder.
pub fn reset_marker_file() -> (name: &'static str)
    ensures
        name@ == marker_file_name(),
{
    ".reset_permissions"
}

/// What is written into the marker file. Only the file's existence is ever
/// looked at.
pub fn reset_marker_contents() -> (contents: &'static str)
    ensures
        contents@ == "reset"@,
{
    "reset"
}

/// One step of the reset that runs at start-up, before the WebView is
/// initialised. Each step is one operation for the host to perform; the
/// host reports back with a yes or a no.
#[derive(Clone, Copy, Debug, PartialEq, Eq)]
pub enum ResetStep {
    /// Find the user's local data directory. Yes if there is one.
    LocateDataDir,
    /// Look for the marker file. Yes if it exists.
    ProbeMarker,
    /// Look for the WebView's data folder. Yes if it exists.
    ProbeWebviewData,
    /// Delete the WebView's data folder with all it holds. Yes if that
    /// worked.
    DeleteWebviewData,
    /// Remove the marker file. Yes if that worked.
    RemoveMarker,
    /// Nothing is left to do.
    Done,
}

/// The step that follows `step` once the host has answered it.
///
/// Without a data directory or without a marker there is nothing to do. With
/// a marker, the data folder is deleted if it exists, and the marker is
/// removed whether or not there was a folder and whether or not deleting it
/// worked: a reset is attempted once per request.
pub open spec fn following(step: ResetStep, yes: bool) -> ResetStep {
    match step {
        ResetStep::LocateDataDir => if yes {
            ResetStep::ProbeMarker
        } else {
            ResetStep::Done
        },
        ResetStep::ProbeMarker => if yes {
            ResetStep::ProbeWebviewData
        } else {
            ResetStep::Done
        },
        ResetStep::ProbeWebviewData => if yes {
            ResetStep::DeleteWebviewData
        } else {
            ResetStep::RemoveMarker
        },
        ResetStep::DeleteWebviewData => ResetStep::RemoveMarker,
        ResetStep::RemoveMarker => ResetStep::Done,
        ResetStep::Done => ResetStep::Done,
    }
}

/// An upper bound on the number of steps still to come after `step`.
pub open spec fn steps_left(step: ResetStep) -> nat {
    match step {
        ResetStep::LocateDataDir => 5,
        ResetStep::ProbeMarker => 4,
        ResetStep::ProbeWebviewData => 3,
        ResetStep::DeleteWebviewData => 2,
        ResetStep::RemoveMarker => 1,
        ResetStep::Done => 0,
    }
}

impl ResetStep {
    /// The step a reset begins with.
    pub fn first() -> (step: ResetStep)
        ensures
            step == ResetStep::LocateDataDir,
    {
        ResetStep::LocateDataDir
    }

    /// The step to take after this one, given the host's answer to this one.
    pub fn advance(self, yes: bool) -> (next: ResetStep)
        ensures
            next == following(self, yes),
            self != ResetStep::Done ==> steps_left(next) < steps_left(self),
    {
        match self {
            ResetStep::LocateDataDir => if yes {
                ResetStep::ProbeMarker
            } else {
                ResetStep::Done
            },
            ResetStep::ProbeMarker => if yes {
                ResetStep::ProbeWebviewData
            } else {
                ResetStep::Done
            },
            ResetStep::ProbeWebviewData => if yes {
                ResetStep::DeleteWebviewData
            } else {
                ResetStep::RemoveMarker
            },
            ResetStep::DeleteWebviewData => ResetStep::RemoveMarker,
            ResetStep::RemoveMarker => ResetStep::Done,
            ResetStep::Done => ResetStep::Done,
        }
    }
}

/// Nothing is deleted or removed unless the marker was found first, and the
/// data folder is deleted only if it was found too. Once the marker has been
/// found it is removed in the end, whatever becomes of the folder.
pub proof fn lemma_marker_guards_reset(step: ResetStep, yes: bool)
    ensures
        following(step, yes) is ProbeWebviewData <==> step is ProbeMarker && yes,
        following(step, yes) is DeleteWebviewData <==> step is ProbeWebviewData && yes,
        following(step, yes) is RemoveMarker <==> (step is ProbeWebviewData && !yes)
            || step is DeleteWebviewData,
{
}

} // verus!
