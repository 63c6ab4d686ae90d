//! The redirect watcher: recognising the identity provider's redirect among
//! the sign-in window's page loads.

use vstd::prelude::*;
use crate::outcome::{OAuthFlowResult, Resolution};
use crate::slot::{recorded, ResultSlot};
use crate::text::starts_with;

verus! {

/// The stage of a page load that the window reports.
#[derive(Clone, Copy, Debug, PartialEq, Eq)]
pub enum PageLoadKind {
    /// Navigation to the address has begun; nothing has been fetched yet.
    Started,
    /// The page has finished loading.
    Finished,
}

/// The address the identity provider is configured to redirect to. A
/// navigation counts as the redirect when its address begins with exactly
/// these characters.
pub open spec fn redirect_prefix() -> Seq<char> {
    "http://localhost/oauth/callback"@
}

/// Whether a page load is the redirect: a navigation that has just started,
/// to an address that begins with [`redirect_prefix`].
pub open spec fn is_redirect(kind: PageLoadKind, url: Seq<char>) -> bool {
    kind is Started && redirect_prefix().is_prefix_of(url)
}

/// The slot after the watcher has seen a page load.
pub open spec fn after_page_load(slot: Option<Resolution>, kind: PageLoadKind, url: Seq<char>) -> Option<
    Resolution,
> {
    if is_redirect(kind, url) {
        recorded(slot, Resolution::Success(url))
    } else {
        slot
    }
}

/// Whether the watcher asks for the window to be destroyed after a page load:
/// exactly when that page load resolved the flow.
pub open spec fn page_load_ends_window(slot: Option<Resolution>, kind: PageLoadKind, url: Seq<char>) -> bool {
    slot is None && is_redirect(kind, url)
}

/// The redirect prefix as a string slice.
pub fn oauth_redirect_prefix() -> (prefix: &'static str)
    ensures
        prefix@ == redirect_prefix(),
{
    "http://localhost/oauth/callback"
}

/// Classifies a page load: `true` when it is the redirect, `false` when the
/// flow has not got there yet. The address is not inspected beyond its first
/// characters.
pub fn classify(kind: PageLoadKind, url: &str) -> (reached: bool)
    ensures
        reached == is_redirect(kind, url@),
{
    match kind {
        PageLoadKind::Started => starts_with(url, oauth_redirect_prefix()),
        PageLoadKind::Finished => false,
    }
}

/// Handles one page load of the sign-in window.
///
/// A redirect resolves an unresolved flow to success with the address as
/// delivered; the return value then asks the host to destroy the window. A
/// redirect that arrives after the flow was resolved, and any other page
/// load, changes nothing and asks for nothing.
pub fn on_page_load(slot: &mut ResultSlot, kind: PageLoadKind, url: &str) -> (destroy_window: bool)
    ensures
        final(slot)@ == after_page_load(old(slot)@, kind, url@),
        destroy_window == page_load_ends_window(old(slot)@, kind, url@),
{
    if classify(kind, url) {
        slot.resolve(OAuthFlowResult::Success(url.to_owned()))
    } else {
        false
    }
}

} // verus!
