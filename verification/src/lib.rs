//! Decision logic of the Secludia desktop shell.
//!
//! The shell hosts a web application in a native window. What the shell
//! decides is kept here, as functions from plain values to plain values with
//! machine-checked contracts; the host program performs the window, file and
//! timer operations that these functions ask for and reports back what it
//! observed.
//!
//! The centre of the crate is the authorization flow: a sign-in window is
//! opened on an identity provider, and the flow ends when the provider
//! redirects to the callback address, when the user closes the window, or
//! when a deadline passes, whichever comes first.
//!
//! * [`request`] admits the authorization address.
//! * [`flow`] starts a flow: the window to open and the slot to share.
//! * [`slot`] is the write-once register that holds the flow's outcome.
//! * [`watcher`], [`observer`] and [`waiter`] are the three parties that act
//!   on the slot.
//! * [`events`] proves that the first of them to act decides the outcome.
//! * [`outcome`] defines outcomes and failures and the replies they become.
//!
//! Around it stand the smaller decisions of the shell:
//!
//! * [`shell`]: tray and window events.
//! * [`webview_reset`]: resetting the WebView's permissions at start-up.
//! * [`identity`]: the application identifier in the configuration.
//! * [`vault`]: the key of the secret store.
//! * [`text`]: string comparisons used throughout.

pub mod events;
pub mod flow;
pub mod identity;
pub mod observer;
pub mod outcome;
pub mod request;
pub mod shell;
pub mod slot;
pub mod text;
pub mod vault;
pub mod waiter;
pub mod watcher;
pub mod webview_reset;
