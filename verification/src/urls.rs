//! URLs as text, and what the `url` crate makes of them.

use vstd::prelude::*;
use crate::json::text_view;

verus! {

/// The text of the URL that `path` denotes relative to the URL `base`;
/// `None` where `base` is no URL or the two give none.
pub uninterp spec fn url_join(base: Seq<char>, path: Seq<char>) -> Option<Seq<char>>;

/// The text of the URL `url` with the pair `name`, `value` added at the end
/// of its query; `None` where `url` is no URL.
pub uninterp spec fn url_with_pair(url: Seq<char>, name: Seq<char>, value: Seq<char>) -> Option<Seq<char>>;

/// The text of the URL that `text` denotes, in the form in which a URL is
/// printed; `None` where it denotes none.
pub uninterp spec fn url_parse(text: Seq<char>) -> Option<Seq<char>>;

/// The decimal text of an integer.
pub uninterp spec fn decimal_text(value: i64) -> Seq<char>;

/// Parses `base` with `url::Url::parse`, resolves `path` against it with
/// `Url::join`, and prints the result. Not proved: that the text is the one
/// named by [`url_join`].
#[verifier::external_body]
pub(crate) fn join_url(base: &str, path: &str) -> (r: Option<String>)
    ensures
        text_view(r) == url_join(base@, path@),
{
    url::Url::parse(base).ok()?.join(path).ok().map(String::from)
}

/// Parses `url` with `url::Url::parse`, adds the pair with
/// `query_pairs_mut().append_pair`, and prints the result. Not proved: that
/// the text is the one named by [`url_with_pair`].
#[verifier::external_body]
pub(crate) fn append_pair(url: &str, name: &str, value: &str) -> (r: Option<String>)
    ensures
        text_view(r) == url_with_pair(url@, name@, value@),
{
    let mut parsed = url::Url::parse(url).ok()?;
    parsed.query_pairs_mut().append_pair(name, value);
    Some(String::from(parsed))
}

/// Parses `text` with `url::Url::parse` and prints the result. Not proved:
/// that the text is the one named by [`url_parse`].
#[verifier::external_body]
pub(crate) fn parse_url(text: &str) -> (r: Option<String>)
    ensures
        text_view(r) == url_parse(text@),
{
    url::Url::parse(text).ok().map(String::from)
}

/// Prints `value` with `i64::to_string`. Not proved: that the text is the
/// one named by [`decimal_text`].
#[verifier::external_body]
pub(crate) fn decimal(value: i64) -> (r: String)
    ensures
        r@ == decimal_text(value),
{
    value.to_string()
}

} // verus!
