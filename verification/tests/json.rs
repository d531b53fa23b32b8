use speedrun_api::json::Json;

#[test]
fn parse_reads_an_object_in_written_order() {
    let parsed = Json::parse(b"{\"b\": 1, \"a\": [true, null, \"x\", 1.5]}").unwrap();
    assert_eq!(
        parsed,
        Json::Object(vec![
            ("b".to_string(), Json::integer(1)),
            (
                "a".to_string(),
                Json::Array(vec![
                    Json::Bool(true),
                    Json::Null,
                    Json::Text("x".to_string()),
                    Json::Number("1.5".to_string()),
                ])
            ),
        ])
    );
}

#[test]
fn parse_rejects_text_that_is_not_json() {
    assert_eq!(Json::parse(b"{\"a\": "), None);
    assert_eq!(Json::parse(b""), None);
}

#[test]
fn to_bytes_writes_members_in_order() {
    let value = Json::Object(vec![
        ("status".to_string(), Json::Text("rejected".to_string())),
        ("reason".to_string(), Json::Text("too slow".to_string())),
    ]);
    assert_eq!(
        value.to_bytes().unwrap(),
        b"{\"status\":\"rejected\",\"reason\":\"too slow\"}".to_vec()
    );
}

#[test]
fn member_finds_the_first_of_that_name() {
    let value = Json::Object(vec![
        ("a".to_string(), Json::integer(1)),
        ("b".to_string(), Json::integer(2)),
        ("a".to_string(), Json::integer(3)),
    ]);
    assert_eq!(value.member("a"), Some(&Json::integer(1)));
    assert_eq!(value.member("b"), Some(&Json::integer(2)));
    assert_eq!(value.member("c"), None);
    assert_eq!(Json::Null.member("a"), None);
}

#[test]
fn numbers_are_integers_where_they_fit() {
    assert_eq!(Json::parse(b"-5"), Some(Json::integer(-5)));
    assert_eq!(Json::parse(b"9223372036854775807"), Some(Json::integer(i64::MAX)));
    assert_eq!(
        Json::parse(b"18446744073709551615"),
        Some(Json::Number("18446744073709551615".to_string()))
    );
    assert_eq!(Json::parse(b"2.5"), Some(Json::Number("2.5".to_string())));
    assert_eq!(Json::Number("2.5".to_string()).to_bytes().unwrap(), b"2.5".to_vec());
    assert_eq!(
        Json::Number("junk".to_string()).to_bytes(),
        Err("a number is not written as JSON numbers are".to_string())
    );
    assert_eq!(Json::integer(-7), Json::Number("-7".to_string()));
    assert_eq!(Json::integer(-7).as_integer(), Some(-7));
    assert_eq!(Json::Number("2.5".to_string()).as_integer(), None);
    assert_eq!(Json::Number("1e2".to_string()).as_integer(), None);
    assert_eq!(Json::parse(b"1.0").unwrap().as_integer(), None);
    assert_eq!(Json::parse(b"-0").unwrap().as_integer(), None);
    assert_eq!(Json::parse(b"12").unwrap().as_integer(), Some(12));
    assert_eq!(Json::parse(b"18446744073709551615").unwrap().as_integer(), None);
    assert_eq!(Json::integer(-7).as_count(), None);
    assert_eq!(Json::integer(7).as_count(), Some(7));
    assert_eq!(Json::Text("7".to_string()).as_count(), None);
}

#[test]
fn later_member_of_a_name_wins_when_reading() {
    let parsed = Json::parse(b"{\"a\":1,\"b\":2,\"a\":3}").unwrap();
    assert_eq!(parsed.member("a"), Some(&Json::integer(3)));
    assert_eq!(parsed.member("b"), Some(&Json::integer(2)));
}

#[test]
fn written_text_is_read_back() {
    let value = Json::Object(vec![
        ("t\"ext".to_string(), Json::Text("line\nbreak é".to_string())),
        ("list".to_string(), Json::Array(vec![Json::Null, Json::Bool(false), Json::integer(0)])),
        ("deep".to_string(), Json::Object(vec![("x".to_string(), Json::Array(vec![]))])),
    ]);
    let text = value.to_bytes().unwrap();
    assert_eq!(Json::parse(&text), Some(value.clone()));
    assert_eq!(value.clone(), value);
}

#[test]
fn accessors() {
    let value = Json::Object(vec![
        ("name".to_string(), Json::Text("n".to_string())),
        ("count".to_string(), Json::integer(3)),
        ("items".to_string(), Json::Array(vec![Json::integer(1)])),
    ]);
    assert_eq!(value.text_member("name"), Some("n".to_string()));
    assert_eq!(value.text_member("count"), None);
    assert_eq!(value.text_member("missing"), None);
    assert_eq!(value.count_member("count"), Some(3));
    assert_eq!(value.count_member("name"), None);
    assert_eq!(value.member("items").unwrap().as_array(), Some(&vec![Json::integer(1)]));
    assert_eq!(value.as_array(), None);
    assert_eq!(value.as_text(), None);
    assert_eq!(Json::Text("t".to_string()).as_text(), Some("t"));
    assert_eq!(Json::text("t"), Json::Text("t".to_string()));
    assert_eq!(Json::array(vec![Json::Null]), Json::Array(vec![Json::Null]));
    assert_eq!(Json::object(vec![]), Json::Object(vec![]));
    assert_eq!(Json::Array(vec![Json::Null]).into_array(), Some(vec![Json::Null]));
    assert_eq!(Json::Null.into_array(), None);
    assert_eq!(value.clone().into_member("count"), Some(Json::integer(3)));
    assert_eq!(value.into_member("nothing"), None);
}

#[test]
fn nesting_is_bounded_when_writing() {
    let mut value = Json::Null;
    for _ in 0..128 {
        value = Json::Array(vec![value]);
    }
    assert!(value.nests_within(128));
    assert!(!value.nests_within(127));
    assert!(value.to_bytes().is_ok());
    let deeper = Json::Object(vec![("k".to_string(), value)]);
    assert!(!deeper.nests_within(128));
    assert_eq!(deeper.to_bytes(), Err("the value is nested too deeply".to_string()));
    assert!(Json::Null.nests_within(0));
    assert!(!Json::Array(vec![]).nests_within(0));
}

#[test]
fn numbers_that_are_not_written_as_json_numbers_are_refused() {
    for text in ["", "-", "01", "1.", ".5", "1e", "1e+", "+1", "1 ", " 1", "0x10", "NaN", "1,5"] {
        let value = Json::Array(vec![Json::integer(1), Json::Number(text.to_string())]);
        assert!(value.nests_within(128));
        assert!(!value.is_writable(128), "{:?}", text);
        assert_eq!(
            value.to_bytes(),
            Err("a number is not written as JSON numbers are".to_string()),
            "{:?}",
            text
        );
    }
    let nested = Json::Object(vec![(
        "a".to_string(),
        Json::Array(vec![Json::Number("1.".to_string())]),
    )]);
    assert!(!nested.is_writable(128));
    assert!(Json::Number("12".to_string()).is_writable(0));
    assert!(!Json::Array(vec![]).is_writable(0));
}

#[test]
fn numbers_are_written_as_they_stand() {
    for text in ["0", "-0", "7", "-12", "1.5", "-0.25", "1e5", "1E5", "2e-3", "2.5E+10", "10.01e0"] {
        assert!(Json::Number(text.to_string()).is_writable(128), "{:?}", text);
        assert!(Json::Number(text.to_string()).to_bytes().is_ok(), "{:?}", text);
    }
    assert_eq!(Json::Number("12".to_string()).to_bytes().unwrap(), b"12".to_vec());
    assert_eq!(Json::Number("2.5".to_string()).to_bytes().unwrap(), b"2.5".to_vec());
    assert_eq!(
        Json::Array(vec![Json::Number("-3".to_string())]).to_bytes().unwrap(),
        b"[-3]".to_vec()
    );
}

#[test]
fn a_number_out_of_the_range_of_the_writer_is_an_error() {
    let value = Json::Object(vec![("n".to_string(), Json::Number("1e999".to_string()))]);
    assert!(value.is_writable(128));
    let error = value.to_bytes().unwrap_err();
    assert!(error.contains("out of range"), "{}", error);
}
