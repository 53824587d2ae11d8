//! The wire-level values that the client exchanges with a transport:
//! requests to perform and what came back from performing them.
use vstd::prelude::*;

verus! {

/// HTTP method of a request.
#[derive(Clone, Copy, Debug, PartialEq, Eq, Structural)]
pub enum Method {
    Get,
    Post,
    Delete,
}

/// A method's name on the wire.
pub open spec fn method_name(m: Method) -> Seq<char> {
    match m {
        Method::Get => "GET"@,
        Method::Post => "POST"@,
        Method::Delete => "DELETE"@,
    }
}

impl Method {
    /// The method's name on the wire.
    pub fn as_str(&self) -> (r: &'static str)
        ensures
            r@ == method_name(*self),
    {
        match self {
            Method::Get => "GET",
            Method::Post => "POST",
            Method::Delete => "DELETE",
        }
    }
}

/// A name and value pair (a header or a query parameter) as character sequences.
pub type PairView = (Seq<char>, Seq<char>);

/// The character view of a list of name and value pairs.
pub open spec fn pairs_view(v: Seq<(String, String)>) -> Seq<PairView> {
    Seq::new(v.len(), |i: int| (v[i].0@, v[i].1@))
}

/// A request for the transport to perform. Query parameters are given unencoded;
/// the transport encodes them. Where `sends_input` holds, the body is the
/// payload of the push that the request belongs to; otherwise it is empty.
pub struct HttpRequest {
    pub method: Method,
    pub url: String,
    pub headers: Vec<(String, String)>,
    pub query: Vec<(String, String)>,
    pub sends_input: bool,
}

/// What a request is, as mathematical values.
pub struct RequestView {
    pub method: Method,
    pub url: Seq<char>,
    pub headers: Seq<PairView>,
    pub query: Seq<PairView>,
    pub sends_input: bool,
}

impl View for HttpRequest {
    type V = RequestView;

    open spec fn view(&self) -> RequestView {
        RequestView {
            method: self.method,
            url: self.url@,
            headers: pairs_view(self.headers@),
            query: pairs_view(self.query@),
            sends_input: self.sends_input,
        }
    }
}

/// Whether a list of pairs holds one with the given name.
pub open spec fn has_pair(v: Seq<PairView>, name: Seq<char>) -> bool {
    exists|i: int| 0 <= i < v.len() && #[trigger] v[i].0 == name
}

/// A successful reply: its `Content-Type` header, if any, and its body as text,
/// or `None` where the body was not valid text.
pub struct Reply {
    pub content_type: Option<String>,
    pub body: Option<String>,
}

/// Why a request did not succeed.
pub enum Failure {
    /// The server answered with a non-success status; the body as text, if it was text.
    Status(Option<String>),
    /// The request could not complete; a description of the transport error.
    Transport(String),
}

/// What became of the bytes of a pulled file.
pub enum Delivery {
    Written,
    /// Writing to the destination failed; a description of the error.
    WriteFailed(String),
}

/// Appends a pair to a list of pairs.
pub fn push_pair(v: &mut Vec<(String, String)>, name: &str, value: String)
    ensures
        pairs_view(final(v)@) == pairs_view(old(v)@).push((name@, value@)),
{
    let n = String::from_str(name);
    v.push((n, value));
    assert(pairs_view(final(v)@) =~= pairs_view(old(v)@).push((name@, value@)));
}

} // verus!
