//! The query core: from a request value to a wire request, and from what
//! comes back to a value or a typed error.

use crate::api::endpoint::{body_view, Body, Endpoint, Method};
use crate::api::error::{ApiError, ApiErrorView, BodyError};
use crate::api::transport::{Outcome, Transport, WireRequest, WireRequestView};
use crate::json::{json_parsed, view_of, FromJson, Json, JsonView};
use crate::text::{index_of, lemma_index_of_absent, lemma_index_of_first};
use vstd::prelude::*;
use vstd::string::{StrSliceExecFns, StringExecFns};

verus! {

/// `text` without the slashes at its end.
pub open spec fn without_trailing_slashes(text: Seq<char>) -> Seq<char>
    decreases text.len(),
{
    if text.len() > 0 && text.last() == '/' {
        without_trailing_slashes(text.drop_last())
    } else {
        text
    }
}

/// `text` without the slashes at its start.
pub open spec fn without_leading_slashes(text: Seq<char>) -> Seq<char>
    decreases text.len(),
{
    if text.len() > 0 && text[0] == '/' {
        without_leading_slashes(text.drop_first())
    } else {
        text
    }
}

/// The URL of a resource: the base and the path, with exactly one slash
/// between them.
pub open spec fn resource_url(base: Seq<char>, path: Seq<char>) -> Seq<char> {
    without_trailing_slashes(base) + seq!['/'] + without_leading_slashes(path)
}

/// The full URL of a request: the URL of the resource and, where the query
/// string is not empty, `?` and the query string.
pub open spec fn request_url(base: Seq<char>, path: Seq<char>, query: Seq<char>) -> Seq<char> {
    if query.len() == 0 {
        resource_url(base, path)
    } else {
        resource_url(base, path) + seq!['?'] + query
    }
}

/// The part of a URL before its query string: all of it up to the first
/// `?`.
pub open spec fn url_resource(url: Seq<char>) -> Seq<char> {
    url.take(index_of(url, '?'))
}

/// The query string of a URL: what follows the first `?`; empty where the
/// URL holds none.
pub open spec fn url_query(url: Seq<char>) -> Seq<char> {
    let k = index_of(url, '?');
    if 0 <= k < url.len() {
        url.skip(k + 1)
    } else {
        Seq::empty()
    }
}

/// The path of a URL under the base URL `base`: what follows the base, query
/// string left aside.
pub open spec fn url_path(url: Seq<char>, base: Seq<char>) -> Seq<char> {
    let resource = url_resource(url);
    let start = without_trailing_slashes(base).len() as int;
    if start <= resource.len() {
        resource.skip(start)
    } else {
        Seq::empty()
    }
}

/// What is left of a text without its trailing slashes holds no character
/// that the text does not hold.
pub proof fn lemma_without_trailing_slashes(text: Seq<char>, c: char)
    requires
        !text.contains(c),
    ensures
        !without_trailing_slashes(text).contains(c),
    decreases text.len(),
{
    if text.len() > 0 && text.last() == '/' {
        let rest = text.drop_last();
        lemma_without_trailing_slashes(rest, c);
    }
}

/// What is left of a text without its leading slashes holds no character
/// that the text does not hold.
pub proof fn lemma_without_leading_slashes(text: Seq<char>, c: char)
    requires
        !text.contains(c),
    ensures
        !without_leading_slashes(text).contains(c),
    decreases text.len(),
{
    if text.len() > 0 && text[0] == '/' {
        let rest = text.drop_first();
        lemma_without_leading_slashes(rest, c);
    }
}

/// A URL whose base and path hold no `?` is taken apart again at its first
/// `?`: before it lies the URL of the resource, after it the query string.
pub proof fn lemma_url_parts(base: Seq<char>, path: Seq<char>, query: Seq<char>)
    requires
        !base.contains('?'),
        !path.contains('?'),
    ensures
        url_resource(request_url(base, path, query)) == resource_url(base, path),
        url_query(request_url(base, path, query)) == query,
{
    let resource = resource_url(base, path);
    lemma_without_trailing_slashes(base, '?');
    lemma_without_leading_slashes(path, '?');
    if query.len() == 0 {
        lemma_index_of_absent(resource, '?');
    } else {
        lemma_index_of_first(resource, '?', query);
    }
}

/// A path that starts with one slash is found again in the URL, after the
/// base.
pub proof fn lemma_url_path(base: Seq<char>, path: Seq<char>, query: Seq<char>)
    requires
        !base.contains('?'),
        !path.contains('?'),
        path.len() > 0,
        path[0] == '/',
        path.len() > 1 ==> path[1] != '/',
    ensures
        url_path(request_url(base, path, query), base) == path,
{
    lemma_url_parts(base, path, query);
    let rest = path.drop_first();
    assert(without_leading_slashes(rest) == rest);
}

/// A text between a prefix and a suffix is found again by their lengths.
pub proof fn lemma_between(prefix: Seq<char>, middle: Seq<char>, suffix: Seq<char>)
    ensures
        (prefix + middle + suffix).subrange(
            prefix.len() as int,
            (prefix + middle + suffix).len() - suffix.len(),
        ) == middle,
{
}

fn trim_trailing_slashes(text: &str) -> (trimmed: &str)
    ensures
        trimmed@ == without_trailing_slashes(text@),
{
    let mut end: usize = text.unicode_len();
    assert(text@.take(end as int) =~= text@);
    while end > 0 && text.get_char(end - 1) == '/'
        invariant
            0 <= end <= text@.len(),
            without_trailing_slashes(text@) == without_trailing_slashes(text@.take(end as int)),
        decreases end,
    {
        proof {
            let head = text@.take(end as int);
            assert(head.drop_last() =~= text@.take(end as int - 1));
        }
        end -= 1;
    }
    text.substring_char(0, end)
}

fn trim_leading_slashes(text: &str) -> (trimmed: &str)
    ensures
        trimmed@ == without_leading_slashes(text@),
{
    let len: usize = text.unicode_len();
    let mut start: usize = 0;
    assert(text@.skip(0) =~= text@);
    while start < len && text.get_char(start) == '/'
        invariant
            0 <= start <= len,
            len == text@.len(),
            without_leading_slashes(text@) == without_leading_slashes(text@.skip(start as int)),
        decreases len - start,
    {
        proof {
            let tail = text@.skip(start as int);
            assert(tail.drop_first() =~= text@.skip(start as int + 1));
        }
        start += 1;
    }
    text.substring_char(start, len)
}

/// Puts the full URL of a request together.
pub fn compose_url(base: &str, path: &str, query: &str) -> (url: String)
    ensures
        url@ == request_url(base@, path@, query@),
{
    proof {
        reveal_strlit("/");
        reveal_strlit("?");
    }
    let mut url = String::from_str(trim_trailing_slashes(base));
    url.append("/");
    url.append(trim_leading_slashes(path));
    if query.unicode_len() > 0 {
        url.append("?");
        url.append(query);
    }
    url
}

/// Whether `request` is what assembling the wire request of `endpoint`
/// under the base URL `base` gives. The request is asked for its query
/// string, then for its body; an error of either is the result. Otherwise
/// the result holds the request's method, the full URL made of `base`, the
/// request's path and its query string, and the body.
pub open spec fn assembles<E: Endpoint>(
    endpoint: &E,
    base: Seq<char>,
    request: Result<WireRequest, ApiError>,
) -> bool {
    exists|query: Result<String, BodyError>| #[trigger]
        call_ensures(E::query_parameters, (endpoint,), query) && match query {
            Err(e) => request == Err::<WireRequest, ApiError>(ApiError::Body(e)),
            Ok(text) => exists|body: Result<Option<Body>, BodyError>| #[trigger]
                call_ensures(E::body, (endpoint,), body) && match body {
                    Err(e) => request == Err::<WireRequest, ApiError>(ApiError::Body(e)),
                    Ok(content) => exists|path: String, method: Method|
                        {
                            &&& #[trigger] call_ensures(E::endpoint_path, (endpoint,), path)
                            &&& #[trigger] call_ensures(E::method, (endpoint,), method)
                            &&& request matches Ok(r) && r@ == (WireRequestView {
                                method,
                                url: request_url(base, path@, text@),
                                body: body_view(content),
                            })
                        },
                },
        }
}

/// Assembles the wire request of `endpoint`: its method, the full URL made
/// of `base`, its path and its query string, and its body.
pub fn assemble<E: Endpoint>(endpoint: &E, base: &str) -> (request: Result<WireRequest, ApiError>)
    ensures
        assembles(endpoint, base@, request),
{
    let query = match endpoint.query_parameters() {
        Ok(query) => query,
        Err(e) => {
            return Err(ApiError::Body(e));
        },
    };
    let body = match endpoint.body() {
        Ok(body) => body,
        Err(e) => {
            return Err(ApiError::Body(e));
        },
    };
    let path = endpoint.endpoint_path();
    let url = compose_url(base, path.as_str(), query.as_str());
    Ok(WireRequest { method: endpoint.method(), url, body })
}

/// The status and the message of an error envelope: an object whose member
/// `status` is an integer and whose member `message` is a string.
pub open spec fn error_envelope(document: JsonView) -> Option<(i64, Seq<char>)> {
    match (document.member("status"@), document.member("message"@)) {
        (Some(status), Some(message)) => match (status.integer(), message.text()) {
            (Some(code), Some(text)) => Some((code, text)),
            _ => None,
        },
        _ => None,
    }
}

/// What an answer means: under a status of 400 or more the error that its
/// error envelope carries, else the payload under `data` of its success
/// envelope. An answer that is no such envelope is a decode error that holds
/// the bytes received.
pub open spec fn payload_of(status: u16, raw: Seq<u8>, parsed: Option<JsonView>) -> Result<
    JsonView,
    ApiErrorView,
> {
    if status >= 400 {
        match parsed {
            Some(document) => match error_envelope(document) {
                Some((code, message)) => Err(ApiErrorView::Api { status: code, message }),
                None => Err(ApiErrorView::Decode { payload: raw }),
            },
            None => Err(ApiErrorView::Decode { payload: raw }),
        }
    } else {
        match parsed {
            Some(document) => match document.member("data"@) {
                Some(payload) => Ok(payload),
                None => Err(ApiErrorView::Decode { payload: raw }),
            },
            None => Err(ApiErrorView::Decode { payload: raw }),
        }
    }
}

/// An answer under a status of 400 or more is never a success. And under
/// any status, an answer that cannot be decoded gives a decode error that
/// holds the bytes as they were received.
pub proof fn lemma_answer_kinds(status: u16, raw: Seq<u8>, parsed: Option<JsonView>)
    ensures
        status >= 400 ==> payload_of(status, raw, parsed) is Err,
        payload_of(status, raw, parsed) matches Err(ApiErrorView::Decode { payload }) ==> payload
            == raw,
        !(payload_of(status, raw, parsed) matches Err(ApiErrorView::Client(_))),
        !(payload_of(status, raw, parsed) matches Err(ApiErrorView::Body(_))),
{
}

/// Tells what an answer means, given its status, the bytes received and what
/// the JSON reader made of them.
pub fn interpret(status: u16, raw: Vec<u8>, parsed: Option<Json>) -> (payload: Result<
    Json,
    ApiError,
>)
    ensures
        match payload {
            Ok(p) => payload_of(status, raw@, view_of(parsed)) == Ok::<JsonView, ApiErrorView>(p@),
            Err(e) => payload_of(status, raw@, view_of(parsed)) == Err::<JsonView, ApiErrorView>(
                e@,
            ),
        },
{
    let document = match parsed {
        Some(document) => document,
        None => {
            return Err(ApiError::Decode { payload: raw });
        },
    };
    if status >= 400 {
        let code = match document.member("status") {
            Some(value) => value.as_integer(),
            None => None,
        };
        let message = match document.member("message") {
            Some(value) => value.as_text(),
            None => None,
        };
        match (code, message) {
            (Some(status), Some(text)) => Err(
                ApiError::Api { status, message: String::from_str(text) },
            ),
            _ => Err(ApiError::Decode { payload: raw }),
        }
    } else {
        match document.into_member("data") {
            Some(payload) => Ok(payload),
            None => Err(ApiError::Decode { payload: raw }),
        }
    }
}

/// Whether `result` is what reading `payload` as a `T` gives, for an answer
/// that was received as `raw`: the value read, or a decode error that holds
/// `raw` where the payload is no `T`.
pub open spec fn reads<T: FromJson>(
    payload: Json,
    raw: Seq<u8>,
    result: Result<T, ApiError>,
) -> bool {
    exists|decoded: Option<T>| #[trigger]
        call_ensures(T::from_json, (&payload,), decoded) && match decoded {
            Some(value) => result == Ok::<T, ApiError>(value),
            None => result matches Err(e) && e@ == (ApiErrorView::Decode { payload: raw }),
        }
}

/// Whether `result` is what an exchange that ended in `outcome` gives: the
/// transport's failure handed on, the error that the answer means, or its
/// payload read as a `T`.
pub open spec fn concludes<T: FromJson>(outcome: Outcome, result: Result<T, ApiError>) -> bool {
    match outcome {
        Err(failure) => result == Err::<T, ApiError>(ApiError::Client(failure)),
        Ok(response) => match payload_of(
            response.status,
            response.body@,
            json_parsed(response.body@),
        ) {
            Err(error) => result matches Err(e) && e@ == error,
            Ok(payload) => exists|value: Json|
                value@ == payload && #[trigger] reads(value, response.body@, result),
        },
    }
}

/// Reads the payload of an answer as a `T`; `raw` is the answer as it was
/// received.
pub fn read_payload<T: FromJson>(payload: &Json, raw: Vec<u8>) -> (result: Result<T, ApiError>)
    ensures
        reads(*payload, raw@, result),
{
    match T::from_json(payload) {
        Some(value) => Ok(value),
        None => Err(ApiError::Decode { payload: raw }),
    }
}

/// Turns the outcome of an exchange into a value or a typed error.
pub fn conclude<T: FromJson>(outcome: Outcome) -> (result: Result<T, ApiError>)
    ensures
        concludes(outcome, result),
{
    let response = match outcome {
        Ok(response) => response,
        Err(e) => {
            return Err(ApiError::Client(e));
        },
    };
    let parsed = Json::parse(response.body.as_slice());
    let raw = response.body.clone();
    let payload = match interpret(response.status, response.body, parsed) {
        Ok(payload) => payload,
        Err(e) => {
            return Err(e);
        },
    };
    read_payload(&payload, raw)
}

/// Assembles the wire request of `endpoint` under the transport's base URL
/// and has the transport perform it, once. A request that cannot be
/// assembled is answered with its error, and then nothing is sent: the
/// transport is left as it was. Otherwise the result is what the one call of
/// `send` with the assembled request gave, and the transport is as that call
/// left it.
pub fn exchange<E: Endpoint, C: Transport>(endpoint: &E, transport: &mut C) -> (outcome: Result<
    Outcome,
    ApiError,
>)
    ensures
        exists|base: String, request: Result<WireRequest, ApiError>|
            {
                &&& #[trigger] call_ensures(C::base_url, (&*old(transport),), base)
                &&& #[trigger] assembles(endpoint, base@, request)
                &&& match request {
                    Err(e) => outcome == Err::<Outcome, ApiError>(e) && *final(transport) == *old(
                        transport,
                    ),
                    Ok(r) => outcome matches Ok(o) && exists|sender: &mut C|
                        {
                            &&& *sender == *old(transport)
                            &&& *final(sender) == *final(transport)
                            &&& #[trigger] call_ensures(C::send, (sender, &r), o)
                        },
                }
            },
{
    let base = transport.base_url();
    let request = match assemble(endpoint, base.as_str()) {
        Ok(request) => request,
        Err(e) => {
            return Err(e);
        },
    };
    let outcome = transport.send(&request);
    Ok(outcome)
}

/// Sends one request and decodes the answer.
///
/// The wire request is assembled from the transport's base URL and the
/// request value. A request that cannot be assembled is answered with its
/// error and nothing is sent: the transport is left as it was. Otherwise the
/// transport's `send` is called exactly once, with the assembled request:
/// the transport is as that one call left it, and the result is what the
/// outcome of that call gives.
pub fn execute<E: Endpoint, C: Transport, T: FromJson>(endpoint: &E, transport: &mut C) -> (result:
    Result<T, ApiError>)
    ensures
        exists|base: String, request: Result<WireRequest, ApiError>|
            {
                &&& #[trigger] call_ensures(C::base_url, (&*old(transport),), base)
                &&& #[trigger] assembles(endpoint, base@, request)
                &&& match request {
                    Err(e) => result == Err::<T, ApiError>(e) && *final(transport) == *old(
                        transport,
                    ),
                    Ok(r) => exists|sender: &mut C, outcome: Outcome|
                        {
                            &&& *sender == *old(transport)
                            &&& *final(sender) == *final(transport)
                            &&& #[trigger] call_ensures(C::send, (sender, &r), outcome)
                            &&& concludes(outcome, result)
                        },
                }
            },
{
    match exchange(endpoint, transport) {
        Ok(outcome) => conclude(outcome),
        Err(e) => Err(e),
    }
}

} // verus!
