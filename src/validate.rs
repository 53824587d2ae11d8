//! Push modifiers whose text must have a given shape.
use vstd::prelude::*;
use crate::pattern::{is_match, regex_matches};
use crate::text::{trim_of, trim_str};

verus! {

/// The shape of a key prefix.
pub const PREFIX_PATTERN: &'static str = r"^[a-zA-Z0-9._\-:|]{1,64}$";

/// The shape of a lifetime: a count of hours, minutes or seconds.
pub const LIFETIME_PATTERN: &'static str = r"^\d+(h|m|s)$";

/// A modifier whose text does not have the required shape.
pub enum Error {
    /// The argument's name, the text given and the shape required.
    MalformedArgument(&'static str, String, String),
}

/// An `Error` as mathematical values.
pub enum ErrorView {
    MalformedArgument(Seq<char>, Seq<char>, Seq<char>),
}

impl View for Error {
    type V = ErrorView;

    open spec fn view(&self) -> ErrorView {
        match self {
            Error::MalformedArgument(name, given, shape) =>
                ErrorView::MalformedArgument(name@, given@, shape@),
        }
    }
}

impl Error {
    /// The text shown to a user for this error.
    pub fn message(&self) -> (r: String)
        ensures
            self@ matches ErrorView::MalformedArgument(n, g, s)
                && r@ == n + " was "@ + g + " but must match "@ + s,
    {
        match self {
            Error::MalformedArgument(name, given, shape) => {
                let mut r = String::from_str(name);
                r.append(" was ");
                r.append(given.as_str());
                r.append(" but must match ");
                r.append(shape.as_str());
                r
            },
        }
    }
}

/// A caller-chosen namespace segment prepended to a generated identifier.
pub struct Prefix(pub String);

/// How long a stored file should live, such as `10m`.
pub struct Lifetime(pub String);

/// Checks the trimmed `text` against `pattern`; on a mismatch, names the argument.
fn checked(text: &str, pattern: &'static str, name: &'static str) -> (r: Result<String, Error>)
    ensures
        regex_matches(pattern@, trim_of(text@)) ==> (r matches Ok(t) && t@ == trim_of(text@)),
        !regex_matches(pattern@, trim_of(text@)) ==> r is Err
            && r->Err_0@ == ErrorView::MalformedArgument(name@, text@, pattern@),
{
    let t = trim_str(text);
    if is_match(pattern, t) {
        Ok(String::from_str(t))
    } else {
        Err(Error::MalformedArgument(name, String::from_str(text), String::from_str(pattern)))
    }
}

impl Prefix {
    /// Reads a prefix: the trimmed text, where it has the required shape.
    pub fn parse(text: &str) -> (r: Result<Prefix, Error>)
        ensures
            r is Ok <==> regex_matches(PREFIX_PATTERN@, trim_of(text@)),
            r matches Ok(p) ==> p.0@ == trim_of(text@),
            r matches Err(e) ==> e@ == ErrorView::MalformedArgument(
                "prefix"@, text@, PREFIX_PATTERN@),
    {
        match checked(text, PREFIX_PATTERN, "prefix") {
            Ok(t) => Ok(Prefix(t)),
            Err(e) => Err(e),
        }
    }
}

impl core::str::FromStr for Prefix {
    type Err = Error;

    fn from_str(s: &str) -> (r: Result<Prefix, Error>)
        ensures
            r is Ok <==> regex_matches(PREFIX_PATTERN@, trim_of(s@)),
            r matches Ok(p) ==> p.0@ == trim_of(s@),
            r matches Err(e) ==> e@ == ErrorView::MalformedArgument("prefix"@, s@, PREFIX_PATTERN@),
    {
        Prefix::parse(s)
    }
}

impl Lifetime {
    /// Reads a lifetime: the trimmed text, where it has the required shape.
    pub fn parse(text: &str) -> (r: Result<Lifetime, Error>)
        ensures
            r is Ok <==> regex_matches(LIFETIME_PATTERN@, trim_of(text@)),
            r matches Ok(l) ==> l.0@ == trim_of(text@),
            r matches Err(e) ==> e@ == ErrorView::MalformedArgument(
                "lifetime"@, text@, LIFETIME_PATTERN@),
    {
        match checked(text, LIFETIME_PATTERN, "lifetime") {
            Ok(t) => Ok(Lifetime(t)),
            Err(e) => Err(e),
        }
    }
}

impl core::str::FromStr for Lifetime {
    type Err = Error;

    fn from_str(s: &str) -> (r: Result<Lifetime, Error>)
        ensures
            r is Ok <==> regex_matches(LIFETIME_PATTERN@, trim_of(s@)),
            r matches Ok(l) ==> l.0@ == trim_of(s@),
            r matches Err(e) ==> e@ == ErrorView::MalformedArgument("lifetime"@, s@, LIFETIME_PATTERN@),
    {
        Lifetime::parse(s)
    }
}

} // verus!
