use speedrun_api::api::endpoint::{frame_json, write_json_body, Body, Endpoint, Method};
use speedrun_api::api::error::{ApiError, BodyError, TransportError};
use speedrun_api::api::games::{Game, Games, GamesSorting};
use speedrun_api::api::query::{
    assemble, compose_url, conclude, exchange, execute, interpret,
};
use speedrun_api::api::transport::{
    Outcome, ReplayTransport, Transport, WireRequest, WireResponse,
};
use speedrun_api::json::Json;
use speedrun_api::types::Genre;

const BASE: &str = "https://www.speedrun.com/api/v1";

/// A transport that counts the calls of `send` and answers each with the
/// same response.
struct Counting {
    calls: usize,
    status: u16,
    body: Vec<u8>,
}

impl Transport for Counting {
    fn base_url(&self) -> String {
        BASE.to_string()
    }

    fn send(&mut self, _request: &WireRequest) -> Outcome {
        self.calls += 1;
        Ok(WireResponse { status: self.status, body: self.body.clone() })
    }
}

/// A request whose query string cannot be written.
struct Unwritable;

impl Endpoint for Unwritable {
    fn method(&self) -> Method {
        Method::Get
    }

    fn endpoint_path(&self) -> String {
        "/broken".to_string()
    }

    fn query_parameters(&self) -> Result<String, BodyError> {
        Err(BodyError::UrlEncoded("unsupported value".to_string()))
    }

    fn body(&self) -> Result<Option<Body>, BodyError> {
        Ok(None)
    }
}

fn ok(status: u16, body: &str) -> Outcome {
    Ok(WireResponse { status, body: body.as_bytes().to_vec() })
}

#[test]
fn compose_url_puts_one_slash_between_base_and_path() {
    assert_eq!(compose_url(BASE, "/games/abc", ""), format!("{}/games/abc", BASE));
    assert_eq!(compose_url("http://h/api/", "games", ""), "http://h/api/games");
    assert_eq!(compose_url("http://h/api///", "///games", ""), "http://h/api/games");
    assert_eq!(compose_url("http://h", "", ""), "http://h/");
}

#[test]
fn compose_url_adds_the_query_string_only_where_there_is_one() {
    assert_eq!(compose_url("http://h", "/runs", "game=x&max=5"), "http://h/runs?game=x&max=5");
    assert_eq!(compose_url("http://h", "/runs", ""), "http://h/runs");
}

#[test]
fn assemble_builds_method_url_and_body() {
    let request = Games::builder().name("mario").orderby(GamesSorting::Released).build().unwrap();
    let wire = assemble(&request, BASE).unwrap();
    assert_eq!(wire.method, Method::Get);
    assert_eq!(wire.url, format!("{}/games?name=mario&orderby=released", BASE));
    assert_eq!(wire.body, None);
}

#[test]
fn assemble_reports_a_body_error() {
    assert_eq!(
        assemble(&Unwritable, BASE),
        Err(ApiError::Body(BodyError::UrlEncoded("unsupported value".to_string())))
    );
}

#[test]
fn error_envelope_gives_api_error() {
    let body = b"{\"status\":404,\"message\":\"Not Found\"}".to_vec();
    let parsed = Json::parse(&body);
    assert_eq!(
        interpret(404, body, parsed),
        Err(ApiError::Api { status: 404, message: "Not Found".to_string() })
    );
    assert_eq!(
        conclude::<Json>(ok(404, "{\"status\":404,\"message\":\"Not Found\"}")),
        Err(ApiError::Api { status: 404, message: "Not Found".to_string() })
    );
}

#[test]
fn error_status_is_never_a_success() {
    // even a well-formed success envelope is no success under an error status
    let result = conclude::<Json>(ok(500, "{\"data\": {\"id\": \"x\"}}"));
    assert_eq!(
        result,
        Err(ApiError::Decode { payload: b"{\"data\": {\"id\": \"x\"}}".to_vec() })
    );
}

#[test]
fn status_400_is_the_first_error_status() {
    let envelope = "{\"status\":400,\"message\":\"Bad\",\"data\":1}";
    assert_eq!(conclude::<Json>(ok(399, envelope)), Ok(Json::integer(1)));
    assert_eq!(
        conclude::<Json>(ok(400, envelope)),
        Err(ApiError::Api { status: 400, message: "Bad".to_string() })
    );
}

#[test]
fn success_envelope_gives_the_payload() {
    let result = conclude::<Json>(ok(200, "{\"data\": {\"id\": \"x\", \"n\": 3}}"));
    assert_eq!(
        result,
        Ok(Json::Object(vec![
            ("id".to_string(), Json::Text("x".to_string())),
            ("n".to_string(), Json::integer(3)),
        ]))
    );
}

#[test]
fn typed_payload_is_decoded() {
    let body = "{\"data\": {\"id\": \"g1\", \"name\": \"Action\", \"links\": \
                [{\"rel\": \"self\", \"uri\": \"http://h/genres/g1\"}]}}";
    let genre = conclude::<Genre>(ok(200, body)).unwrap();
    assert_eq!(genre.id, "g1");
    assert_eq!(genre.name, "Action");
    assert_eq!(genre.links.len(), 1);
    assert_eq!(genre.links[0].rel, "self");
    assert_eq!(genre.links[0].uri, "http://h/genres/g1");
}

#[test]
fn decode_failure_holds_the_raw_payload() {
    let result = conclude::<Genre>(ok(200, "{\"data\": 123}"));
    assert_eq!(result, Err(ApiError::Decode { payload: b"{\"data\": 123}".to_vec() }));
}

#[test]
fn malformed_envelopes_are_decode_errors() {
    for body in ["", "not json", "[1,2]", "{\"payload\": 1}", "{\"data\""] {
        assert_eq!(
            conclude::<Json>(ok(200, body)),
            Err(ApiError::Decode { payload: body.as_bytes().to_vec() })
        );
    }
    for body in ["", "{\"status\":\"404\",\"message\":\"x\"}", "{\"status\":404}", "{\"message\":\"x\"}"] {
        assert_eq!(
            conclude::<Json>(ok(404, body)),
            Err(ApiError::Decode { payload: body.as_bytes().to_vec() })
        );
    }
}

#[test]
fn transport_failure_is_handed_on() {
    let failure = TransportError { message: "connection refused".to_string() };
    assert_eq!(conclude::<Json>(Err(failure.clone())), Err(ApiError::Client(failure)));
}

#[test]
fn execute_sends_exactly_once() {
    let mut transport = Counting { calls: 0, status: 200, body: b"{\"data\": []}".to_vec() };
    let request = Games::builder().build().unwrap();
    let result: Result<Json, ApiError> = execute(&request, &mut transport);
    assert_eq!(result, Ok(Json::Array(vec![])));
    assert_eq!(transport.calls, 1);
    let failed: Result<Genre, ApiError> = execute(&request, &mut transport);
    assert!(matches!(failed, Err(ApiError::Decode { .. })));
    assert_eq!(transport.calls, 2);
}

#[test]
fn execute_sends_once_even_when_the_answer_is_an_error() {
    let mut transport = Counting {
        calls: 0,
        status: 404,
        body: b"{\"status\":404,\"message\":\"Not Found\"}".to_vec(),
    };
    let request = Game::builder().id("nope").build().unwrap();
    let result: Result<Json, ApiError> = execute(&request, &mut transport);
    assert_eq!(result, Err(ApiError::Api { status: 404, message: "Not Found".to_string() }));
    assert_eq!(transport.calls, 1);
}

#[test]
fn execute_sends_nothing_when_the_request_cannot_be_assembled() {
    let mut transport = Counting { calls: 0, status: 200, body: b"{\"data\": 1}".to_vec() };
    let result: Result<Json, ApiError> = execute(&Unwritable, &mut transport);
    assert_eq!(
        result,
        Err(ApiError::Body(BodyError::UrlEncoded("unsupported value".to_string())))
    );
    assert_eq!(transport.calls, 0);
}

#[test]
fn execute_hands_the_assembled_request_to_the_transport() {
    let mut transport = ReplayTransport::new(BASE, vec![ok(200, "{\"data\": {}}")]);
    let request = Game::builder().id("xldev513").build().unwrap();
    let result: Result<Json, ApiError> = execute(&request, &mut transport);
    assert_eq!(result, Ok(Json::Object(vec![])));
    assert_eq!(transport.sent(), 1);
    let sent = transport.request(0).unwrap();
    assert_eq!(sent.method, Method::Get);
    assert_eq!(sent.url, format!("{}/games/xldev513", BASE));
    assert_eq!(sent.body, None);
    assert_eq!(transport.request(1), None);
}

#[test]
fn replay_transport_fails_once_its_outcomes_are_used_up() {
    let mut transport = ReplayTransport::new(BASE, vec![]);
    let request = Game::builder().id("a").build().unwrap();
    let result: Result<Json, ApiError> = execute(&request, &mut transport);
    assert_eq!(
        result,
        Err(ApiError::Client(TransportError { message: "no outcome left to replay".to_string() }))
    );
    assert_eq!(transport.sent(), 1);
}

#[test]
fn exchange_gives_the_outcome_as_it_came() {
    let failure = TransportError { message: "tls handshake failed".to_string() };
    let mut transport = ReplayTransport::new(
        BASE,
        vec![ok(503, "busy"), Err(failure.clone())],
    );
    let request = Game::builder().id("g").build().unwrap();
    assert_eq!(
        exchange(&request, &mut transport),
        Ok(Ok(WireResponse { status: 503, body: b"busy".to_vec() }))
    );
    assert_eq!(exchange(&request, &mut transport), Ok(Err(failure)));
    assert_eq!(
        exchange(&Unwritable, &mut transport),
        Err(ApiError::Body(BodyError::UrlEncoded("unsupported value".to_string())))
    );
    assert_eq!(transport.sent(), 2);
}

#[test]
fn json_body_is_framed_with_its_content_type() {
    assert_eq!(
        frame_json(Ok(b"{}".to_vec())),
        Ok(Some(("application/json", b"{}".to_vec())))
    );
    assert_eq!(
        frame_json(Err("key must be a string".to_string())),
        Err(BodyError::Json("key must be a string".to_string()))
    );
    let value = Json::Object(vec![("a".to_string(), Json::integer(1))]);
    assert_eq!(
        write_json_body(&value),
        Ok(Some(("application/json", b"{\"a\":1}".to_vec())))
    );
    let mut deep = Json::Null;
    for _ in 0..200 {
        deep = Json::Array(vec![deep]);
    }
    assert_eq!(
        write_json_body(&deep),
        Err(BodyError::Json("the value is nested too deeply".to_string()))
    );
}
