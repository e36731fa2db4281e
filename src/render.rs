use crate::error::HttpieError;
use crate::text::{decimal, decimal_text, eq_ignore_ascii_case, matches_ignore_ascii_case};
use vstd::prelude::*;

verus! {

/// What the renderer reads of a response.
#[derive(Debug)]
pub struct ResponseView {
    /// The protocol version, as in `HTTP/1.1`.
    pub version: String,
    /// The numeric status code.
    pub status: u16,
    /// The headers, as (name, value), in the order received.
    pub headers: Vec<(String, String)>,
    /// The body text.
    pub body: String,
}

/// The views of a list of headers.
pub open spec fn headers_view(hs: Seq<(String, String)>) -> Seq<(Seq<char>, Seq<char>)> {
    hs.map_values(|h: (String, String)| (h.0@, h.1@))
}

/// `n` names the content type header, in any ASCII case.
pub open spec fn is_content_type_name(n: Seq<char>) -> bool {
    eq_ignore_ascii_case(n, "content-type"@)
}

/// The value of the first content type header at or after `i`.
pub open spec fn content_type_from(hs: Seq<(Seq<char>, Seq<char>)>, i: int) -> Option<Seq<char>>
    decreases hs.len() - i,
{
    if i < 0 || i >= hs.len() {
        None
    } else if is_content_type_name(hs[i].0) {
        Some(hs[i].1)
    } else {
        content_type_from(hs, i + 1)
    }
}

/// The declared content type: the value of the first content type header.
pub open spec fn content_type_of(hs: Seq<(Seq<char>, Seq<char>)>) -> Option<Seq<char>> {
    content_type_from(hs, 0)
}

/// Whether the text names the media type `application/json`.
pub uninterp spec fn media_json(s: Seq<char>) -> bool;

/// Whether the text is one well-formed JSON value.
pub uninterp spec fn json_valid(s: Seq<char>) -> bool;

/// The indented layout of a JSON text, when it can be made.
pub uninterp spec fn jsonxf_pretty(s: Seq<char>) -> Option<Seq<char>>;

/// Relies on `<mime::Mime as FromStr>::from_str` and `Mime`'s `==`: whether
/// the text parses as a media type equal to `mime::APPLICATION_JSON`.
#[verifier::external_body]
fn media_is_json(ct: &str) -> (r: bool)
    ensures
        r == media_json(ct@),
{
    match ct.parse::<mime::Mime>() {
        Ok(m) => m == mime::APPLICATION_JSON,
        Err(_) => false,
    }
}

/// Relies on `serde_json::from_str::<serde_json::Value>`: whether the text
/// is accepted as a JSON value.
#[verifier::external_body]
fn json_well_formed(s: &str) -> (r: bool)
    ensures
        r == json_valid(s@),
{
    serde_json::from_str::<serde_json::Value>(s).is_ok()
}

/// Relies on `jsonxf::pretty_print`: the text laid out with two-space
/// indentation, or nothing where it reports an error.
#[verifier::external_body]
fn pretty_print(s: &str) -> (r: Option<String>)
    ensures
        r matches Some(t) ==> jsonxf_pretty(s@) == Some(t@),
        r is None ==> jsonxf_pretty(s@) is None,
{
    jsonxf::pretty_print(s).ok()
}

/// The body text to print, or nothing where a body declared as JSON is not
/// JSON: JSON is pretty-printed, anything else printed as it is.
pub open spec fn rendered_body(
    json_declared: bool,
    well_formed: bool,
    pretty: Option<Seq<char>>,
    body: Seq<char>,
) -> Option<Seq<char>> {
    if !json_declared {
        Some(body)
    } else if !well_formed {
        None
    } else {
        pretty
    }
}

/// The views of an optional string.
pub open spec fn opt_view(o: Option<String>) -> Option<Seq<char>> {
    match o {
        Some(t) => Some(t@),
        None => None,
    }
}

/// Picks the body text from what was learned of it: whether JSON was
/// declared, whether the body is JSON, and its pretty-printed form.
pub fn select_body(
    json_declared: bool,
    well_formed: bool,
    pretty: Option<String>,
    body: &str,
) -> (r: Result<String, HttpieError>)
    ensures
        match rendered_body(json_declared, well_formed, opt_view(pretty), body@) {
            Some(t) => r matches Ok(o) && o@ == t,
            None => r matches Err(e) && e is BodyFormat,
        },
{
    if !json_declared {
        Ok(body.to_owned())
    } else if !well_formed {
        Err(HttpieError::BodyFormat)
    } else {
        match pretty {
            Some(t) => Ok(t),
            None => Err(HttpieError::BodyFormat),
        }
    }
}

impl ResponseView {
    /// The headers as (name, value) texts.
    pub open spec fn header_texts(&self) -> Seq<(Seq<char>, Seq<char>)> {
        headers_view(self.headers@)
    }

    /// Whether the response declares its body to be JSON.
    pub open spec fn json_declared(&self) -> bool {
        match content_type_of(self.header_texts()) {
            Some(c) => media_json(c),
            None => false,
        }
    }

    /// The body text that rendering prints, or nothing for a body format error.
    pub open spec fn spec_body(&self) -> Option<Seq<char>> {
        rendered_body(
            self.json_declared(),
            json_valid(self.body@),
            jsonxf_pretty(self.body@),
            self.body@,
        )
    }

    /// The status line: protocol version, a space, and the status code.
    pub fn status_line(&self) -> (r: String)
        ensures
            r@ == self.version@ + " "@ + decimal(self.status as nat),
    {
        let code = decimal_text(self.status);
        self.version.clone().concat(" ").concat(code.as_str())
    }

    /// The declared content type: the value of the first header named
    /// `content-type` in any ASCII case; none where there is no such header.
    pub fn content_type(&self) -> (r: Option<String>)
        ensures
            opt_view(r) == content_type_of(self.header_texts()),
    {
        let ghost hs = self.header_texts();
        let mut i: usize = 0;
        while i < self.headers.len()
            invariant
                hs == self.header_texts(),
                i <= self.headers@.len(),
                content_type_of(hs) == content_type_from(hs, i as int),
            decreases self.headers@.len() - i,
        {
            let h = &self.headers[i];
            assert(hs[i as int] == (h.0@, h.1@));
            if matches_ignore_ascii_case(h.0.as_str(), "content-type") {
                return Some(h.1.clone());
            }
            i = i + 1;
        }
        None
    }

    /// Whether the response declares its body to be `application/json`.
    pub fn is_json(&self) -> (r: bool)
        ensures
            r == self.json_declared(),
    {
        match self.content_type() {
            Some(c) => media_is_json(c.as_str()),
            None => false,
        }
    }

    /// The body as it is printed: pretty-printed where the content type is
    /// `application/json`, unchanged otherwise. A body declared as JSON that
    /// is not JSON is a body format error.
    pub fn render_body(&self) -> (r: Result<String, HttpieError>)
        ensures
            match self.spec_body() {
                Some(t) => r matches Ok(o) && o@ == t,
                None => r matches Err(e) && e is BodyFormat,
            },
    {
        let json_declared = self.is_json();
        let well_formed = json_declared && json_well_formed(self.body.as_str());
        let pretty = if well_formed {
            pretty_print(self.body.as_str())
        } else {
            None
        };
        select_body(json_declared, well_formed, pretty, self.body.as_str())
    }
}

/// One header line: the name, a colon and a space, and the value.
pub fn header_line(name: &str, value: &str) -> (r: String)
    ensures
        r@ == name@ + ": "@ + value@,
{
    name.to_owned().concat(": ").concat(value)
}

/// A response without a content type header has its body printed verbatim.
pub proof fn law_no_content_type_verbatim(v: ResponseView)
    requires
        content_type_of(v.header_texts()) is None,
    ensures
        v.spec_body() == Some(v.body@),
{
}

/// A response declared as JSON whose body is not JSON is a body format error.
pub proof fn law_declared_json_requires_json(v: ResponseView)
    requires
        v.json_declared(),
        !json_valid(v.body@),
    ensures
        v.spec_body() is None,
{
}

/// A response whose content type is present but is not JSON has its body
/// printed verbatim.
pub proof fn law_other_content_type_verbatim(v: ResponseView)
    requires
        content_type_of(v.header_texts()) matches Some(c) && !media_json(c),
    ensures
        v.spec_body() == Some(v.body@),
{
}

} // verus!
