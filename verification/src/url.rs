//! Locations of documents, held as their serialized text.
//!
//! The `url` crate stands in here for a browser's own type of location and its
//! own way of making one out of a reference in a page: references are resolved
//! as that crate resolves them.

use vstd::prelude::*;

use crate::text::opt_text;

verus! {

/// A location. Its text is what the `url` crate serializes a location to.
pub struct Url {
    pub text: String,
}

impl View for Url {
    type V = Seq<char>;

    open spec fn view(&self) -> Seq<char> {
        self.text@
    }
}

impl Clone for Url {
    fn clone(&self) -> (r: Self)
        ensures
            r == *self,
    {
        Url { text: self.text.clone() }
    }
}

/// The text inside an optional location.
pub open spec fn opt_url(u: Option<Url>) -> Option<Seq<char>> {
    match u {
        Some(u) => Some(u@),
        None => None,
    }
}

/// What `url::Url::parse` makes of `input`: the serialized location, or nothing
/// where `input` is not an absolute location.
pub uninterp spec fn absolute_url(input: Seq<char>) -> Option<Seq<char>>;

/// What `url::Url::join` makes of `input` on top of the location `base`: the
/// serialized location, or nothing where `base` is not an absolute location or
/// `input` does not resolve against it.
pub uninterp spec fn joined_url(base: Seq<char>, input: Seq<char>) -> Option<Seq<char>>;

/// The location that stands in for the one of an inline style sheet.
pub open spec fn inline_style_url() -> Seq<char> {
    "http://example.com/"@
}

/// Reads an absolute location.
///
/// Calls `url::Url::parse`. Trusted: the result depends on the input alone, and
/// `http://example.com/` is a location that serializes to itself.
#[verifier::external_body]
fn parse_absolute(input: &str) -> (r: Option<String>)
    ensures
        opt_text(r) == absolute_url(input@),
        input@ == inline_style_url() ==> opt_text(r) == Some(inline_style_url()),
{
    match url::Url::parse(input) {
        Ok(u) => Some(String::from(u)),
        Err(_) => None,
    }
}

/// Resolves `input` against the location `base`.
///
/// Calls `url::Url::join`, on the location that `url::Url::parse` reads from
/// `base`. Trusted: the result depends on the two texts alone.
#[verifier::external_body]
fn join(base: &str, input: &str) -> (r: Option<String>)
    ensures
        opt_text(r) == joined_url(base@, input@),
{
    match url::Url::parse(base) {
        Ok(b) => match b.join(input) {
            Ok(u) => Some(String::from(u)),
            Err(_) => None,
        },
        Err(_) => None,
    }
}

/// An optional location has a text exactly where it is there, and it is its own.
pub proof fn law_opt_url(u: Option<Url>)
    ensures
        match u {
            Some(url) => opt_url(u) == Some(url.text@),
            None => opt_url(u) is None,
        },
{
}

impl Url {
    /// Reads an absolute location; nothing where the text is not one.
    pub fn parse(input: &str) -> (r: Option<Url>)
        ensures
            opt_url(r) == absolute_url(input@),
            input@ == inline_style_url() ==> opt_url(r) == Some(inline_style_url()),
            match r {
                Some(url) => absolute_url(input@) == Some(url.text@),
                None => absolute_url(input@) is None,
            },
    {
        match parse_absolute(input) {
            Some(text) => Some(Url { text }),
            None => None,
        }
    }
}

/// Makes a location out of text found in a document that lies at `current_url`;
/// nothing where the text does not resolve.
pub fn make_url(str_url: &str, current_url: &Url) -> (r: Option<Url>)
    ensures
        opt_url(r) == joined_url(current_url@, str_url@),
        match r {
            Some(url) => joined_url(current_url.text@, str_url@) == Some(url.text@),
            None => joined_url(current_url.text@, str_url@) is None,
        },
{
    match join(current_url.text.as_str(), str_url) {
        Some(text) => Some(Url { text }),
        None => None,
    }
}

} // verus!
