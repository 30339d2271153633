//! Opening a parsed URL: its serialization, dispatched for the platform.

use vstd::prelude::*;

use url::Url;

use crate::dispatch::{dispatch_for, dispatch_of, Dispatch};
use crate::platform::Platform;

verus! {

/// The `url` crate's parsed URL, carried through without looking inside.
#[verifier::external_type_specification]
#[verifier::external_body]
pub struct ExUrl(url::Url);

/// Relies on url::Url::as_str, which hands out the URL's stored
/// serialization, for the text that the operating system is given.
pub assume_specification[ url::Url::as_str ](u: &url::Url) -> &str;

/// The operating-system call that opens `url` in the default browser on
/// `platform`: one dispatch, whose text is the URL's serialization.
pub fn open(url: &Url, platform: Platform) -> (d: Dispatch)
    ensures
        exists|s: Seq<char>| d@ == dispatch_of(platform, s),
{
    dispatch_for(platform, url.as_str())
}

/// Convenience method to open URLs.
pub trait UrlOpen {
    /// The operating-system call that opens this URL on `platform`.
    fn open(&self, platform: Platform) -> (d: Dispatch)
        ensures
            exists|s: Seq<char>| d@ == dispatch_of(platform, s),
    ;
}

impl UrlOpen for Url {
    fn open(&self, platform: Platform) -> (d: Dispatch) {
        open(self, platform)
    }
}

} // verus!
