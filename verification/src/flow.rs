//! Starting an authorization flow.
//!
//! A flow is idle until it is started. Starting it admits the address and, if
//! that succeeds, creates the slot and describes the sign-in window; from
//! then on the window is open and three parties act on the slot: the
//! [redirect watcher](crate::watcher), the [close observer](crate::observer)
//! and the [waiter](crate::waiter). The first of them to record an outcome
//! resolves the flow, and a resolved flow stays as it is; [`crate::events`]
//! states that as theorems.

use vstd::prelude::*;
use crate::outcome::FlowError;
use crate::request::{admission, OAuthFlowRequest};
use crate::slot::ResultSlot;

verus! {

/// The sign-in window the host is asked to create.
#[derive(Debug, PartialEq, Eq)]
pub struct ChildWindow {
    /// Identifier under which the host keeps the window. It is the same for
    /// every flow, so the host can hold one sign-in window at a time.
    pub label: String,
    /// The address the window opens.
    pub url: String,
    pub title: String,
    /// Inner width in logical pixels.
    pub width: u32,
    /// Inner height in logical pixels.
    pub height: u32,
    pub centered: bool,
    pub resizable: bool,
}

/// A [`ChildWindow`] as a mathematical value.
pub struct ChildWindowView {
    pub label: Seq<char>,
    pub url: Seq<char>,
    pub title: Seq<char>,
    pub width: u32,
    pub height: u32,
    pub centered: bool,
    pub resizable: bool,
}

impl View for ChildWindow {
    type V = ChildWindowView;

    open spec fn view(&self) -> ChildWindowView {
        ChildWindowView {
            label: self.label@,
            url: self.url@,
            title: self.title@,
            width: self.width,
            height: self.height,
            centered: self.centered,
            resizable: self.resizable,
        }
    }
}

/// The sign-in window for the address `url`.
pub open spec fn sign_in_window(url: Seq<char>) -> ChildWindowView {
    ChildWindowView {
        label: "oauth"@,
        url,
        title: "Sign in"@,
        width: 500,
        height: 700,
        centered: true,
        resizable: true,
    }
}

/// What a started flow consists of: the window to open and the slot that the
/// window's observers and the waiter will share.
#[derive(Debug)]
pub struct FlowStart {
    pub window: ChildWindow,
    pub slot: ResultSlot,
}

/// Describes the sign-in window for an admitted address.
pub fn describe_window(request: &OAuthFlowRequest) -> (window: ChildWindow)
    ensures
        window@ == sign_in_window(request@),
{
    ChildWindow {
        label: "oauth".to_owned(),
        url: request.authorization_url().to_owned(),
        title: "Sign in".to_owned(),
        width: 500,
        height: 700,
        centered: true,
        resizable: true,
    }
}

/// Starts a flow for the authorization address `url`.
///
/// The address is admitted first. If it is refused, the refusal is all there
/// is: no window is described and no slot is created. If it is admitted, the
/// result holds the description of the one window to open, pointed at the
/// address as given, and the one, empty, slot of this flow.
pub fn start_flow(url: &str) -> (outcome: Result<FlowStart, FlowError>)
    ensures
        (match admission(url@) {
            Ok(address) => outcome matches Ok(start) && start.window@ == sign_in_window(address)
                && start.slot@ is None,
            Err(failure) => outcome matches Err(error) && error@ == failure,
        }),
{
    match OAuthFlowRequest::new(url) {
        Ok(request) => Ok(FlowStart { window: describe_window(&request), slot: ResultSlot::new() }),
        Err(error) => Err(error),
    }
}

} // verus!
