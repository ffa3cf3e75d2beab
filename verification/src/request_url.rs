//! The address under which a resource is served, as the base of its links.

use crate::text::text_of;
use url::{Position, Url};
use vstd::prelude::*;

verus! {

/// The text that `url::Url` holds up to the end of its path component
/// (`Position::AfterPath`) once it has parsed `url`, or `None` where
/// `Url::parse` rejects `url`.
pub uninterp spec fn url_through_path(url: Seq<char>) -> Option<Seq<char>>;

/// Calls `url::Url::parse` on `url` and slices the parsed URL with
/// `..Position::AfterPath`. The contract claims that the outcome is a function
/// of the text alone: the slice where parsing succeeds, nothing where it fails.
#[verifier::external_body]
fn through_path(url: &str) -> (base: Option<String>)
    ensures
        text_of(base) == url_through_path(url@),
{
    match Url::parse(url) {
        Ok(parsed) => Some(parsed[..Position::AfterPath].to_string()),
        Err(_) => None,
    }
}

/// An externally visible request URL, cut off at the end of its path: what is
/// left once query and fragment are discarded.
#[derive(Debug, Clone, PartialEq, Eq)]
pub struct BaseUrl {
    text: String,
}

impl View for BaseUrl {
    type V = Seq<char>;

    closed spec fn view(&self) -> Seq<char> {
        self.text@
    }
}

impl BaseUrl {
    /// The base of the request URL `url`; `None` where `url` is no URL.
    pub fn parse(url: &str) -> (base: Option<BaseUrl>)
        ensures
            match base {
                Some(b) => url_through_path(url@) == Some(b@),
                None => url_through_path(url@) is None,
            },
    {
        match through_path(url) {
            Some(text) => Some(BaseUrl { text }),
            None => None,
        }
    }

    /// The text of the base.
    pub fn as_str(&self) -> (text: &str)
        ensures
            text@ == self@,
    {
        self.text.as_str()
    }
}

} // verus!
