//! Addresses. Whether a text is an absolute URL, and how that URL is written out, is decided by
//! the `url` crate; this library holds an address as the text that the crate wrote.

use vstd::prelude::*;

verus! {

/// What `url::Url::parse` makes of `text`: the URL written out again, or nothing where `text`
/// is not an absolute URL.
pub uninterp spec fn parsed_url(text: Seq<char>) -> Option<Seq<char>>;

/// The text of a string that may be absent.
pub open spec fn text_of(s: Option<String>) -> Option<Seq<char>> {
    match s {
        Some(s) => Some(s@),
        None => None,
    }
}

/// `url::Url::parse`, followed by the conversion of the `Url` into its `String`. The result is
/// what the crate makes of `text`, which depends on `text` alone; nothing else is claimed of it.
#[verifier::external_body]
pub(crate) fn parse_url(text: &str) -> (address: Option<String>)
    ensures
        text_of(address) == parsed_url(text@),
{
    url::Url::parse(text).ok().map(String::from)
}

} // verus!
