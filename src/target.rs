use crate::error::HttpieError;
use vstd::prelude::*;

verus! {

/// Whether `s` parses as an absolute URL.
pub uninterp spec fn url_valid(s: Seq<char>) -> bool;

/// Relies on `<reqwest::Url as FromStr>::from_str` (the `url` crate's
/// parser, with no base URL): whether it accepts the text. Without a `:`
/// no scheme can be read, and a text without scheme and without base is
/// refused.
#[verifier::external_body]
fn url_parses(s: &str) -> (r: bool)
    ensures
        r == url_valid(s@),
        !s@.contains(':') ==> !r,
{
    s.parse::<reqwest::Url>().is_ok()
}

/// Checks that `s` is an absolute URL and hands back the text unchanged.
/// A text without a scheme (no `:` at all) is always refused.
pub fn parse_url(s: &str) -> (r: Result<String, HttpieError>)
    ensures
        url_valid(s@) ==> (r matches Ok(t) && t@ == s@),
        !url_valid(s@) ==> (r matches Err(HttpieError::InvalidUrl(t)) && t@ == s@),
        !s@.contains(':') ==> r is Err,
{
    if url_parses(s) {
        Ok(s.to_owned())
    } else {
        Err(HttpieError::InvalidUrl(s.to_owned()))
    }
}

} // verus!
