//! The URL parser behind identity names, with its result as plain values.

use vstd::prelude::*;
use vstd::string::*;

verus! {

/// The components of a parsed URL, as mathematical values.
pub struct UrlParts {
    /// The scheme, without the colon.
    pub scheme: Seq<char>,
    /// The host as written in the URL, if the URL has one.
    pub host: Option<Seq<char>>,
    /// The path, without query and fragment.
    pub path: Seq<char>,
    /// Whether the URL is of the kind that has no hierarchy after its scheme.
    pub cannot_be_a_base: bool,
    /// The parser's own serialization of the URL.
    pub text: Seq<char>,
}

/// The components of a parsed URL.
#[derive(Debug)]
pub struct ParsedUrl {
    /// The scheme, without the colon.
    pub scheme: String,
    /// The host as written in the URL, if the URL has one.
    pub host: Option<String>,
    /// The path, without query and fragment.
    pub path: String,
    /// Whether the URL is of the kind that has no hierarchy after its scheme.
    pub cannot_be_a_base: bool,
    /// The parser's own serialization of the URL.
    pub text: String,
}

impl View for ParsedUrl {
    type V = UrlParts;

    open spec fn view(&self) -> UrlParts {
        UrlParts {
            scheme: self.scheme@,
            host: match self.host {
                Some(h) => Some(h@),
                None => None,
            },
            path: self.path@,
            cannot_be_a_base: self.cannot_be_a_base,
            text: self.text@,
        }
    }
}

impl Clone for ParsedUrl {
    fn clone(&self) -> (r: Self)
        ensures
            r@ == self@,
    {
        ParsedUrl {
            scheme: self.scheme.clone(),
            host: match &self.host {
                Some(h) => Some(h.clone()),
                None => None,
            },
            path: self.path.clone(),
            cannot_be_a_base: self.cannot_be_a_base,
            text: self.text.clone(),
        }
    }
}

/// What `url::Url::parse` makes of a text: the components of the URL, or
/// nothing where the parser rejects the text.
pub uninterp spec fn url_parse(input: Seq<char>) -> Option<UrlParts>;

/// Runs `url::Url::parse` on `input` and reads the scheme, host, path,
/// cannot-be-a-base flag and serialization off the result. The contract only
/// gives the parser's answer its name, `url_parse`.
#[verifier::external_body]
pub(crate) fn parse_url(input: &str) -> (r: Result<ParsedUrl, url::ParseError>)
    ensures
        r is Ok <==> url_parse(input@) is Some,
        r matches Ok(u) ==> url_parse(input@) == Some(u@),
{
    let u = url::Url::parse(input)?;
    Ok(ParsedUrl {
        scheme: u.scheme().to_string(),
        host: u.host_str().map(|h| h.to_string()),
        path: u.path().to_string(),
        cannot_be_a_base: u.cannot_be_a_base(),
        text: u.as_str().to_string(),
    })
}

} // verus!
