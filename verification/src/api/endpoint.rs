//! What every request value can say of itself.

use crate::api::error::{BodyError, BodyErrorView};
use crate::json::{written, Json, JsonView};
use vstd::prelude::*;

verus! {

/// The HTTP methods that requests are sent with.
#[derive(Clone, Copy, Debug, PartialEq, Eq, Structural)]
pub enum Method {
    Get,
    Post,
    Put,
    Delete,
}

/// The content type and the bytes of a request body.
pub type Body = (&'static str, Vec<u8>);

/// The content type and the bytes of an optional request body.
pub open spec fn body_view(body: Option<Body>) -> Option<(Seq<char>, Seq<u8>)> {
    match body {
        Some(b) => Some((b.0@, b.1@)),
        None => None,
    }
}

/// The body that carries a JSON text: the content type `application/json`
/// and the text; where the writer reported an error instead of a text, that
/// error.
pub open spec fn framed(text: Result<Seq<u8>, Seq<char>>) -> Result<
    Option<(Seq<char>, Seq<u8>)>,
    BodyErrorView,
> {
    match text {
        Ok(bytes) => Ok(Some(("application/json"@, bytes))),
        Err(message) => Err(BodyErrorView::Json(message)),
    }
}

/// The body that carries a JSON value: its text, framed.
pub open spec fn json_body(value: JsonView) -> Result<Option<(Seq<char>, Seq<u8>)>, BodyErrorView> {
    framed(written(value))
}

/// Whether `body` has the content that `content` describes.
pub open spec fn body_matches(
    content: Result<Option<(Seq<char>, Seq<u8>)>, BodyErrorView>,
    body: Result<Option<Body>, BodyError>,
) -> bool {
    match body {
        Ok(b) => content == Ok::<Option<(Seq<char>, Seq<u8>)>, BodyErrorView>(body_view(b)),
        Err(e) => content == Err::<Option<(Seq<char>, Seq<u8>)>, BodyErrorView>(e@),
    }
}

/// Whether `body` is the body that carries the JSON value `value`.
pub open spec fn writes_json_body(value: JsonView, body: Result<Option<Body>, BodyError>) -> bool {
    body_matches(json_body(value), body)
}

/// Frames what the JSON writer gave as the body of a request.
pub fn frame_json(text: Result<Vec<u8>, String>) -> (body: Result<Option<Body>, BodyError>)
    ensures
        body_matches(
            framed(
                match text {
                    Ok(bytes) => Ok(bytes@),
                    Err(message) => Err(message@),
                },
            ),
            body,
        ),
{
    match text {
        Ok(bytes) => Ok(Some(("application/json", bytes))),
        Err(message) => Err(BodyError::Json(message)),
    }
}

/// Writes a JSON value as the body of a request.
pub fn write_json_body(value: &Json) -> (body: Result<Option<Body>, BodyError>)
    ensures
        writes_json_body(value@, body),
{
    frame_json(value.to_bytes())
}

/// A request value: it names the method, the path, the query parameters and
/// the body of one call. Asking a request for them changes nothing, and the
/// query core asks for each at most once per call.
pub trait Endpoint {
    /// The method of the request.
    fn method(&self) -> Method;

    /// The path of the resource, with the identifiers given at build time.
    fn endpoint_path(&self) -> String;

    /// The encoded query string, empty where the request has no parameters;
    /// an error where the parameters cannot be encoded.
    fn query_parameters(&self) -> Result<String, BodyError>;

    /// The content type and the bytes of the body, where the request carries
    /// one; an error where the body cannot be written.
    fn body(&self) -> Result<Option<Body>, BodyError>;
}

/// Marks a request whose result is one page of a larger collection.
pub trait Pageable {}

} // verus!
