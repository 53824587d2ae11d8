//! Response representation: the `Accept` value sent and the `Content-Type` read back.
use vstd::prelude::*;
use crate::text::text_eq;
use crate::validate::{Error, ErrorView};

verus! {

/// The representation in which the service answers.
#[derive(Clone, Copy, Debug, PartialEq, Eq, Structural)]
pub enum ResponseFormat {
    TextJavascript,
    TextPlain,
}

/// The canonical content type of a format.
pub open spec fn api_name(f: ResponseFormat) -> Seq<char> {
    match f {
        ResponseFormat::TextJavascript => "text/javascript"@,
        ResponseFormat::TextPlain => "text/plain"@,
    }
}

/// The format that an accepted alias names; `None` for any other text.
/// Aliases are case-sensitive.
pub open spec fn format_of(s: Seq<char>) -> Option<ResponseFormat> {
    if s == "txt"@ || s == "text"@ || s == "text/plain"@ {
        Some(ResponseFormat::TextPlain)
    } else if s == "js"@ || s == "json"@ || s == "javascript"@ || s == "text/javascript"@ {
        Some(ResponseFormat::TextJavascript)
    } else {
        None
    }
}

impl ResponseFormat {
    /// The content type sent as `Accept` for this format.
    pub fn to_api_name(&self) -> (r: &'static str)
        ensures
            r@ == api_name(*self),
    {
        match self {
            ResponseFormat::TextJavascript => "text/javascript",
            ResponseFormat::TextPlain => "text/plain",
        }
    }

    /// Reads an alias or a content type; `None` where it names no format.
    pub fn from_name(s: &str) -> (r: Option<ResponseFormat>)
        ensures
            r == format_of(s@),
    {
        if text_eq(s, "txt") || text_eq(s, "text") || text_eq(s, "text/plain") {
            Some(ResponseFormat::TextPlain)
        } else if text_eq(s, "js") || text_eq(s, "json") || text_eq(s, "javascript")
            || text_eq(s, "text/javascript") {
            Some(ResponseFormat::TextJavascript)
        } else {
            None
        }
    }
}

/// What a format alias must be, as shown in errors.
pub const FORMAT_CHOICES: &'static str = "either of text/plain, text/javascript";

impl ResponseFormat {
    /// Reads an alias or a content type; an error naming the accepted ones otherwise.
    pub fn parse(s: &str) -> (r: Result<ResponseFormat, Error>)
        ensures
            r is Ok <==> format_of(s@) is Some,
            r matches Ok(f) ==> format_of(s@) == Some(f),
            r matches Err(e) ==> e@ == ErrorView::MalformedArgument(
                "response format"@, s@, FORMAT_CHOICES@),
    {
        match ResponseFormat::from_name(s) {
            Some(f) => Ok(f),
            None => Err(Error::MalformedArgument(
                "response format",
                String::from_str(s),
                String::from_str(FORMAT_CHOICES),
            )),
        }
    }
}

impl core::str::FromStr for ResponseFormat {
    type Err = Error;

    fn from_str(s: &str) -> (r: Result<ResponseFormat, Error>)
        ensures
            r is Ok <==> format_of(s@) is Some,
            r matches Ok(f) ==> format_of(s@) == Some(f),
            r matches Err(e) ==> e@ == ErrorView::MalformedArgument(
                "response format"@, s@, FORMAT_CHOICES@),
    {
        ResponseFormat::parse(s)
    }
}

impl Default for ResponseFormat {
    fn default() -> (r: ResponseFormat)
        ensures
            r == ResponseFormat::TextPlain,
    {
        ResponseFormat::TextPlain
    }
}

/// Every format's canonical content type reads back as that format.
pub proof fn lemma_api_name_reads_back(f: ResponseFormat)
    ensures
        format_of(api_name(f)) == Some(f),
{
    reveal_strlit("txt");
    reveal_strlit("text");
    reveal_strlit("text/plain");
    reveal_strlit("js");
    reveal_strlit("json");
    reveal_strlit("javascript");
    reveal_strlit("text/javascript");
    assert("text/plain"@.len() == 10);
    assert("txt"@.len() == 3);
    assert("text"@.len() == 4);
    assert("text/javascript"@ != "txt"@);
    assert("text/javascript"@ != "text"@);
    assert("text/javascript"@ != "text/plain"@);
}

/// For every accepted alias, reading it, emitting the canonical content type
/// and reading that again gives the same format.
pub proof fn lemma_alias_round_trip(s: Seq<char>)
    requires
        format_of(s) is Some,
    ensures
        format_of(api_name(format_of(s)->0)) == format_of(s),
{
    lemma_api_name_reads_back(format_of(s)->0);
}

} // verus!
