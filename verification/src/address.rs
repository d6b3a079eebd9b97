//! Absolute URLs, as the `url` crate reads them.

use vstd::prelude::*;
use vstd::string::StringExecFns;

verus! {

/// What this crate reads off a parsed URL.
#[derive(Debug, Clone)]
pub struct ParsedUrl {
    /// The scheme, without the `:` that follows it.
    pub scheme: String,
    /// The URL written out in normal form.
    pub serialization: String,
}

/// What `Url::parse` makes of `input`: nothing where it rejects the input, else
/// the scheme of the URL and its serialization.
pub uninterp spec fn url_parse(input: Seq<char>) -> Option<(Seq<char>, Seq<char>)>;

/// `url::Url::parse`, with `Url::scheme` and the conversion of a `Url` into a
/// `String` to read the outcome. The result is the one that `url_parse` names:
/// an error exactly where the crate rejects `input`, else the scheme and the
/// serialization of the URL it parsed.
#[verifier::external_body]
pub(crate) fn parse_url(input: &str) -> (r: Result<ParsedUrl, ::url::ParseError>)
    ensures
        match r {
            Ok(p) => url_parse(input@) == Some((p.scheme@, p.serialization@)),
            Err(_) => url_parse(input@) is None,
        },
{
    match ::url::Url::parse(input) {
        Ok(u) => Ok(ParsedUrl { scheme: u.scheme().to_string(), serialization: u.into() }),
        Err(e) => Err(e),
    }
}

/// Whether `scheme` is one of the two schemes of the web.
pub open spec fn is_web_scheme(scheme: Seq<char>) -> bool {
    scheme == "http"@ || scheme == "https"@
}

/// Whether `input` parses as a URL whose scheme is `http` or `https`.
pub open spec fn is_valid_url_spec(input: Seq<char>) -> bool {
    match url_parse(input) {
        Some(parsed) => is_web_scheme(parsed.0),
        None => false,
    }
}

/// Tells whether `scheme` is `http` or `https`.
pub fn scheme_is_web(scheme: &str) -> (r: bool)
    ensures
        r == is_web_scheme(scheme@),
{
    let given = String::from_str(scheme);
    given == String::from_str("http") || given == String::from_str("https")
}

/// Tells whether `input` parses as a URL whose scheme is `http` or `https`.
pub fn is_valid_url(input: &str) -> (r: bool)
    ensures
        r == is_valid_url_spec(input@),
{
    match parse_url(input) {
        Ok(parsed) => scheme_is_web(parsed.scheme.as_str()),
        Err(_) => false,
    }
}

} // verus!
