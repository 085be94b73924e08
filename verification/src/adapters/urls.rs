//! URLs of the `url` crate.

use crate::size::GetSize;
use crate::tracker::{GetSizeTracker, TrackerState};
use url::Url;
use vstd::prelude::*;
use vstd::utf8::encode_utf8;

verus! {

/// `url::Url`, a parsed URL.
#[verifier::external_type_specification]
#[verifier::external_body]
pub struct ExUrl(url::Url);

/// The text that a URL is serialised as.
pub uninterp spec fn url_serialization(url: Url) -> Seq<char>;

/// The serialisation of `url`, as `Url::as_str` gives it.
#[verifier::external_body]
fn url_as_str(url: &Url) -> (text: &str)
    ensures
        text@ == url_serialization(*url),
{
    url.as_str()
}

impl GetSize for Url {
    /// A URL owns its serialisation, and the length of that text in bytes is
    /// what counts.
    open spec fn heap_size_is(&self, before: TrackerState, bytes: usize, after: TrackerState) -> bool {
        bytes == encode_utf8(url_serialization(*self)).len() as usize && after == before
    }

    fn get_heap_size_with_tracker<T: GetSizeTracker>(&self, tracker: T) -> (measured: (usize, T)) {
        (url_as_str(self).len(), tracker)
    }
}

} // verus!
