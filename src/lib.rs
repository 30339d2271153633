//! Open a URL in the user's default web browser.
//!
//! The library decides which operating-system call opens a URL on each
//! platform and what the outcome of that call means. The call itself is made
//! by the caller: the library holds no state and touches no process.

mod dispatch;
mod opener;
mod outcome;
mod platform;

pub use dispatch::{
    dispatch_for, dispatch_of, encode_newlines, lemma_dispatch_carries_url,
    lemma_dispatch_single_line, lemma_encoded_single_line, lemma_encoded_unchanged, newlines_encoded,
    Dispatch, DispatchView,
};
pub use opener::{open, UrlOpen};
pub use outcome::{conclude, Cause, OpenError, Outcome, SpawnFailure, SHELL_SUCCESS_THRESHOLD};
pub use platform::{platform_named, Platform};
