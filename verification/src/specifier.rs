//! Module specifiers. A specifier is valid where it parses as an absolute
//! URL; the parsing is that of the `url` crate.

use crate::error::{Error, ErrorModel};
use vstd::prelude::*;

verus! {

/// What `url::Url::parse` makes of a text: the serialisation of the URL, or
/// the message of the parse error.
pub uninterp spec fn url_parse_outcome(input: Seq<char>) -> Result<Seq<char>, Seq<char>>;

/// The model of a result that holds a text either way.
pub open spec fn text_result(r: Result<String, String>) -> Result<Seq<char>, Seq<char>> {
    match r {
        Ok(text) => Ok(text@),
        Err(text) => Err(text@),
    }
}

/// Calls `url::Url::parse`, which parses an absolute URL and depends on its
/// argument alone. The contract names the result: the URL as the crate writes
/// it, or the text of the crate's parse error.
#[verifier::external_body]
pub(crate) fn parse_url(input: &str) -> (r: Result<String, String>)
    ensures
        text_result(r) == url_parse_outcome(input@),
{
    match url::Url::parse(input) {
        Ok(parsed) => Ok(String::from(parsed)),
        Err(e) => Err(e.to_string()),
    }
}

/// What a specifier is taken for: the URL, or `BadSpecifier` with the reason.
pub open spec fn specifier_outcome(parsed: Result<Seq<char>, Seq<char>>) -> Result<
    Seq<char>,
    ErrorModel,
> {
    match parsed {
        Ok(url) => Ok(url),
        Err(reason) => Err(ErrorModel::BadSpecifier(reason)),
    }
}

/// The model of a result that holds a text or an error.
pub open spec fn checked_text(r: Result<String, Error>) -> Result<Seq<char>, ErrorModel> {
    match r {
        Ok(text) => Ok(text@),
        Err(e) => Err(e@),
    }
}

/// What a specifier is taken for, given what the parser made of it.
pub fn specifier_from(parsed: Result<String, String>) -> (r: Result<String, Error>)
    ensures
        checked_text(r) == specifier_outcome(text_result(parsed)),
{
    match parsed {
        Ok(url) => Ok(url),
        Err(reason) => Err(Error::BadSpecifier(reason)),
    }
}

/// The URL that a module specifier names, or `BadSpecifier` where it is no
/// valid URL.
pub fn parse_specifier(specifier: &str) -> (r: Result<String, Error>)
    ensures
        checked_text(r) == specifier_outcome(url_parse_outcome(specifier@)),
{
    specifier_from(parse_url(specifier))
}

} // verus!
