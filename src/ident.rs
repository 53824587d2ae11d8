//! Reading a create reply: its format, its body text and the new identifier.
use vstd::prelude::*;
use crate::error::{ErrorKind, ErrorView, Malformed};
use crate::format::{format_of, ResponseFormat};
use crate::http::Reply;
use crate::pattern::{first_group, regex_group_one};
use crate::text::{trim_of, trim_str};

verus! {

/// The single-field object shape in which a structured reply carries the identifier.
pub const ID_PATTERN: &'static str = r#"^\{\s*"id"\s*:\s*"([^"]*)"\s*\}$"#;

/// The format that a `Content-Type` header names, if any.
pub open spec fn content_format(header: Option<String>) -> Option<ResponseFormat> {
    match header {
        Some(h) => format_of(h@),
        None => None,
    }
}

/// The identifier that a reply body carries under a format, if any.
pub open spec fn id_in(body: Seq<char>, f: ResponseFormat) -> Option<Seq<char>> {
    match f {
        ResponseFormat::TextJavascript => regex_group_one(ID_PATTERN@, body),
        ResponseFormat::TextPlain => Some(trim_of(body)),
    }
}

/// The body of a successful reply, or the shape violation where it is not text.
pub open spec fn reply_text(reply: Reply) -> Result<Seq<char>, ErrorView> {
    match reply.body {
        Some(b) => Ok(b@),
        None => Err(ErrorView::ServerError(Malformed::BadEncoding)),
    }
}

/// The format of a reply, read from its `Content-Type`; `None` where it names none.
pub fn get_content_type(reply: &Reply) -> (r: Option<ResponseFormat>)
    ensures
        r == content_format(reply.content_type),
{
    match &reply.content_type {
        Some(h) => ResponseFormat::from_name(h.as_str()),
        None => None,
    }
}

/// The identifier in a create reply's body: the trimmed body for plain text,
/// the value of the single `id` field for structured text.
pub fn extract_id(text: &String, content_type: ResponseFormat) -> (r: Option<String>)
    ensures
        r is Some <==> id_in(text@, content_type) is Some,
        r matches Some(id) ==> id@ == id_in(text@, content_type)->0,
{
    match content_type {
        ResponseFormat::TextJavascript => first_group(ID_PATTERN, text.as_str()),
        ResponseFormat::TextPlain => Some(String::from_str(trim_str(text.as_str()))),
    }
}

/// The body of a successful reply as text.
pub fn text_or_err(reply: Reply) -> (r: Result<String, ErrorKind>)
    ensures
        r matches Ok(t) ==> reply_text(reply) == Ok::<Seq<char>, ErrorView>(t@),
        r matches Err(e) ==> reply_text(reply) == Err::<Seq<char>, ErrorView>(e@),
{
    match reply.body {
        Some(b) => Ok(b),
        None => Err(ErrorKind::ServerError(Malformed::BadEncoding)),
    }
}

} // verus!
