//! The decisions of the outbound client: which methods it sends, and how it
//! encodes a body. Sending is the embedding's work.

use crate::http::types::HttpError;
use crate::text::{join_text, str_eq};
use vstd::prelude::*;

verus! {

/// `text` in upper case, by the Unicode rules of the standard library.
pub uninterp spec fn upper_cased(text: Seq<char>) -> Seq<char>;

/// `text` in lower case, by the Unicode rules of the standard library.
pub uninterp spec fn lower_cased(text: Seq<char>) -> Seq<char>;

/// Upper-cases with `str::to_uppercase`.
///
/// Trusted: the result is taken to be a function of the text, named
/// [`upper_cased`].
#[verifier::external_body]
fn to_upper(text: &str) -> (upper: String)
    ensures
        upper@ == upper_cased(text@),
{
    text.to_uppercase()
}

/// Lower-cases with `str::to_lowercase`.
///
/// Trusted: the result is taken to be a function of the text, named
/// [`lower_cased`].
#[verifier::external_body]
fn to_lower(text: &str) -> (lower: String)
    ensures
        lower@ == lower_cased(text@),
{
    text.to_lowercase()
}

/// A method that the client sends.
#[derive(Clone, Copy, Debug, PartialEq, Eq, Structural)]
pub enum HttpMethod {
    /// `GET`
    Get,
    /// `POST`
    Post,
    /// `PUT`
    Put,
    /// `DELETE`
    Delete,
    /// `PATCH`
    Patch,
    /// `HEAD`
    Head,
    /// `OPTIONS`
    Options,
}

/// The method that an upper-case name stands for.
pub open spec fn method_named(upper: Seq<char>) -> Option<HttpMethod> {
    if upper == "GET"@ {
        Some(HttpMethod::Get)
    } else if upper == "POST"@ {
        Some(HttpMethod::Post)
    } else if upper == "PUT"@ {
        Some(HttpMethod::Put)
    } else if upper == "DELETE"@ {
        Some(HttpMethod::Delete)
    } else if upper == "PATCH"@ {
        Some(HttpMethod::Patch)
    } else if upper == "HEAD"@ {
        Some(HttpMethod::Head)
    } else if upper == "OPTIONS"@ {
        Some(HttpMethod::Options)
    } else {
        None
    }
}

/// Whether `parsed` is what the method name `method`, whose upper case is
/// `upper`, comes to: the method of that name, or an error without a
/// status code that quotes the name as it was given.
pub open spec fn names_method(
    method: Seq<char>,
    upper: Seq<char>,
    parsed: Result<HttpMethod, HttpError>,
) -> bool {
    match method_named(upper) {
        Some(found) => parsed == Ok::<HttpMethod, HttpError>(found),
        None => parsed matches Err(error) && error.code is None && error.message@
            == "Unsupported HTTP method: "@ + method,
    }
}

/// Finds the method of an upper-case name. `method` is the name as it was
/// given, for the error.
pub fn method_from_upper(method: &str, upper: &str) -> (parsed: Result<HttpMethod, HttpError>)
    ensures
        names_method(method@, upper@, parsed),
{
    if str_eq(upper, "GET") {
        Ok(HttpMethod::Get)
    } else if str_eq(upper, "POST") {
        Ok(HttpMethod::Post)
    } else if str_eq(upper, "PUT") {
        Ok(HttpMethod::Put)
    } else if str_eq(upper, "DELETE") {
        Ok(HttpMethod::Delete)
    } else if str_eq(upper, "PATCH") {
        Ok(HttpMethod::Patch)
    } else if str_eq(upper, "HEAD") {
        Ok(HttpMethod::Head)
    } else if str_eq(upper, "OPTIONS") {
        Ok(HttpMethod::Options)
    } else {
        Err(HttpError { message: join_text("Unsupported HTTP method: ", method), code: None })
    }
}

/// Finds the method of a name, in whatever case it is written.
pub fn parse_method(method: &str) -> (parsed: Result<HttpMethod, HttpError>)
    ensures
        names_method(method@, upper_cased(method@), parsed),
{
    let upper = to_upper(method);
    method_from_upper(method, upper.as_str())
}

/// How a body is sent.
#[derive(Clone, Copy, Debug, PartialEq, Eq, Structural)]
pub enum BodyEncoding {
    /// As JSON.
    Json,
    /// As form fields.
    Form,
}

/// The encoding of a body, given the lower-cased content type of the
/// request, if it names one, and whether the body is a JSON object. Only an
/// object can be sent as a form, and only where the request asks for one.
pub open spec fn encoding_for(lowered: Option<Seq<char>>, body_is_object: bool) -> BodyEncoding {
    if lowered == Some("application/x-www-form-urlencoded"@) && body_is_object {
        BodyEncoding::Form
    } else {
        BodyEncoding::Json
    }
}

/// Chooses the encoding of a body from a lower-cased content type.
pub fn encoding_from_lowered(lowered: Option<&str>, body_is_object: bool) -> (encoding:
    BodyEncoding)
    ensures
        encoding == encoding_for(
            match lowered {
                Some(text) => Some(text@),
                None => None,
            },
            body_is_object,
        ),
{
    match lowered {
        Some(text) => {
            if str_eq(text, "application/x-www-form-urlencoded") && body_is_object {
                BodyEncoding::Form
            } else {
                BodyEncoding::Json
            }
        },
        None => BodyEncoding::Json,
    }
}

/// Chooses the encoding of a body from the `Content-Type` header of its
/// request, if it has one.
pub fn body_encoding(content_type: Option<&str>, body_is_object: bool) -> (encoding: BodyEncoding)
    ensures
        encoding == encoding_for(
            match content_type {
                Some(text) => Some(lower_cased(text@)),
                None => None,
            },
            body_is_object,
        ),
{
    match content_type {
        Some(text) => {
            let lowered = to_lower(text);
            encoding_from_lowered(Some(lowered.as_str()), body_is_object)
        },
        None => encoding_from_lowered(None, body_is_object),
    }
}

/// The value of a form field: the text of a JSON string, and nothing for
/// any other JSON value.
pub open spec fn field_text(value: Option<String>) -> Seq<char> {
    match value {
        Some(text) => text@,
        None => Seq::empty(),
    }
}

/// The form fields of a JSON object. Each entry is a key with the text of
/// its value where that value is a string; a value of another kind gives
/// an empty field.
pub fn form_fields(entries: Vec<(String, Option<String>)>) -> (fields: Vec<(String, String)>)
    ensures
        fields@.len() == entries@.len(),
        forall|i: int|
            0 <= i < entries@.len() ==> (#[trigger] fields@[i]).0 == entries@[i].0 && fields@[i].1@
                == field_text(entries@[i].1),
{
    let mut fields: Vec<(String, String)> = Vec::new();
    let mut i: usize = 0;
    while i < entries.len()
        invariant
            i <= entries@.len(),
            fields@.len() == i,
            forall|k: int|
                0 <= k < i ==> (#[trigger] fields@[k]).0 == entries@[k].0 && fields@[k].1@
                    == field_text(entries@[k].1),
        decreases entries.len() - i,
    {
        let key = entries[i].0.clone();
        let value = match &entries[i].1 {
            Some(text) => text.clone(),
            None => String::new(),
        };
        fields.push((key, value));
        i += 1;
    }
    fields
}

} // verus!
