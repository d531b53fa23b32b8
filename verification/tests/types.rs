use speedrun_api::api::builder::BuilderError;
use speedrun_api::api::error::{ApiError, BodyError, TransportError};
use speedrun_api::json::{read_all, FromJson, Json};
use speedrun_api::types::{Genre, Link, Pagination};

fn parse(text: &str) -> Json {
    Json::parse(text.as_bytes()).unwrap()
}

#[test]
fn genre_is_read_from_an_object() {
    let value = parse(
        "{\"id\":\"g1\",\"name\":\"Platformer\",\"extra\":1,\"links\":[\
         {\"rel\":\"self\",\"uri\":\"http://h/genres/g1\"},\
         {\"rel\":\"games\",\"uri\":\"http://h/games?genre=g1\"}]}",
    );
    let genre = Genre::from_json(&value).unwrap();
    assert_eq!(
        genre,
        Genre {
            id: "g1".to_string(),
            name: "Platformer".to_string(),
            links: vec![
                Link { rel: "self".to_string(), uri: "http://h/genres/g1".to_string() },
                Link { rel: "games".to_string(), uri: "http://h/games?genre=g1".to_string() },
            ],
        }
    );
}

#[test]
fn genre_of_the_wrong_shape_is_not_read() {
    for text in [
        "123",
        "[]",
        "{}",
        "{\"id\":\"g\",\"name\":\"n\"}",
        "{\"id\":\"g\",\"links\":[]}",
        "{\"id\":1,\"name\":\"n\",\"links\":[]}",
        "{\"id\":\"g\",\"name\":\"n\",\"links\":{}}",
        "{\"id\":\"g\",\"name\":\"n\",\"links\":[{\"rel\":\"self\"}]}",
        "{\"id\":\"g\",\"name\":\"n\",\"links\":[{\"rel\":\"self\",\"uri\":\"u\"},3]}",
    ] {
        assert_eq!(Genre::from_json(&parse(text)), None, "{}", text);
    }
}

#[test]
fn genre_default_is_empty() {
    assert_eq!(
        Genre::default(),
        Genre { id: String::new(), name: String::new(), links: Vec::new() }
    );
}

#[test]
fn link_and_pagination_are_read() {
    assert_eq!(
        Link::from_json(&parse("{\"rel\":\"next\",\"uri\":\"u\"}")),
        Some(Link { rel: "next".to_string(), uri: "u".to_string() })
    );
    assert_eq!(Link::from_json(&parse("{\"rel\":\"next\"}")), None);
    assert_eq!(
        Pagination::from_json(&parse("{\"offset\":20,\"max\":10,\"size\":7,\"links\":[]}")),
        Some(Pagination { offset: 20, max: 10, size: 7 })
    );
    assert_eq!(Pagination::from_json(&parse("{\"offset\":20,\"max\":10}")), None);
    assert_eq!(Pagination::from_json(&parse("{\"offset\":20,\"max\":10,\"size\":-1}")), None);
    assert_eq!(Pagination::from_json(&parse("{\"offset\":20,\"max\":1.5,\"size\":1}")), None);
    assert_eq!(Pagination::from_json(&parse("{\"offset\":\"0\",\"max\":1,\"size\":1}")), None);
}

#[test]
fn lists_are_read_element_by_element() {
    let value = parse("[{\"rel\":\"a\",\"uri\":\"1\"},{\"rel\":\"b\",\"uri\":\"2\"}]");
    let links = Vec::<Link>::from_json(&value).unwrap();
    assert_eq!(links.len(), 2);
    assert_eq!(links[1].rel, "b");
    assert_eq!(Vec::<Link>::from_json(&parse("[{\"rel\":\"a\",\"uri\":\"1\"},null]")), None);
    assert_eq!(Vec::<Link>::from_json(&parse("{}")), None);
    assert_eq!(Vec::<Link>::from_json(&parse("[]")), Some(vec![]));
    assert_eq!(read_all::<Json>(&vec![Json::Null, Json::Bool(true)]), Some(vec![Json::Null, Json::Bool(true)]));
    assert_eq!(Json::from_json(&parse("[1]")), Some(Json::Array(vec![Json::integer(1)])));
}

#[test]
fn error_messages() {
    assert_eq!(
        ApiError::Client(TransportError { message: "connection refused".to_string() }).message(),
        "client error: connection refused"
    );
    assert_eq!(
        ApiError::Body(BodyError::UrlEncoded("unsupported value".to_string())).message(),
        "failed to URL encode form parameters: unsupported value"
    );
    assert_eq!(
        BodyError::Json("key must be a string".to_string()).message(),
        "failed to write the JSON body: key must be a string"
    );
    assert_eq!(
        ApiError::Api { status: 404, message: "Not Found".to_string() }.message(),
        "the service answered with status 404: Not Found"
    );
    assert_eq!(
        ApiError::Decode { payload: b"{}".to_vec() }.message(),
        "could not decode the answer"
    );
    assert_eq!(
        BuilderError::UninitializedField("status").message(),
        "`status` must be initialized"
    );
}
