use speedrun_api::api::form::{encode_pairs, push_flag, push_number, push_text, push_word, Pair};
use speedrun_api::text::{
    is_json_number, join_with_commas, parse_integer, same_text, signed_text, unsigned_text,
};

fn pair(key: &str, value: &str) -> Pair {
    (key.to_string(), value.to_string())
}

#[test]
fn encode_pairs_of_nothing_is_empty() {
    assert_eq!(encode_pairs(&vec![]), Ok(String::new()));
}

#[test]
fn encode_pairs_joins_with_ampersands() {
    let pairs = vec![
        pair("bread", "baguette"),
        pair("cheese", "comté"),
        pair("meat", "ham"),
        pair("fat", "butter"),
    ];
    assert_eq!(
        encode_pairs(&pairs).unwrap(),
        "bread=baguette&cheese=comt%C3%A9&meat=ham&fat=butter"
    );
}

#[test]
fn encode_pairs_escapes_bytes() {
    assert_eq!(encode_pairs(&vec![pair("a b", "c&d=e")]).unwrap(), "a+b=c%26d%3De");
    assert_eq!(encode_pairs(&vec![pair("", "")]).unwrap(), "=");
    assert_eq!(encode_pairs(&vec![pair("", ""), pair("", "")]).unwrap(), "=&=");
    assert_eq!(
        encode_pairs(&vec![pair("k", "*-._09AZaz~!/?%+\u{0}\u{7f}")]).unwrap(),
        "k=*-._09AZaz%7E%21%2F%3F%25%2B%00%7F"
    );
    assert_eq!(encode_pairs(&vec![pair("k", "日本")]).unwrap(), "k=%E6%97%A5%E6%9C%AC");
    assert_eq!(encode_pairs(&vec![pair("k", "😀")]).unwrap(), "k=%F0%9F%98%80");
}

#[test]
fn encoded_pairs_are_read_back_by_a_form_parser() {
    let pairs = vec![pair("näme", "a=b&c d+e%"), pair("", "x"), pair("y", ""), pair("näme", "2")];
    let text = encode_pairs(&pairs).unwrap();
    let back: Vec<Pair> = serde_urlencoded::from_str(&text).unwrap();
    assert_eq!(back, pairs);
}

#[test]
fn push_helpers_add_only_what_is_set() {
    let mut pairs: Vec<Pair> = Vec::new();
    push_text(&mut pairs, "a", &None);
    push_text(&mut pairs, "b", &Some("x".to_string()));
    push_number(&mut pairs, "c", None);
    push_number(&mut pairs, "d", Some(-12));
    push_flag(&mut pairs, "e", None);
    push_flag(&mut pairs, "f", Some(true));
    push_flag(&mut pairs, "g", Some(false));
    push_word(&mut pairs, "h", None);
    push_word(&mut pairs, "i", Some("w"));
    assert_eq!(
        pairs,
        vec![pair("b", "x"), pair("d", "-12"), pair("f", "true"), pair("g", "false"), pair("i", "w")]
    );
}

#[test]
fn numbers_as_text() {
    assert_eq!(unsigned_text(0), "0");
    assert_eq!(unsigned_text(7), "7");
    assert_eq!(unsigned_text(10), "10");
    assert_eq!(unsigned_text(1234567890), "1234567890");
    assert_eq!(unsigned_text(u64::MAX), "18446744073709551615");
    assert_eq!(signed_text(0), "0");
    assert_eq!(signed_text(-1), "-1");
    assert_eq!(signed_text(1996), "1996");
    assert_eq!(signed_text(i64::MAX), "9223372036854775807");
    assert_eq!(signed_text(i64::MIN), "-9223372036854775808");
    for n in [-1000i64, -99, -10, -9, 5, 42, 100, 101, 99999] {
        assert_eq!(signed_text(n), n.to_string());
    }
}

#[test]
fn words_joined_with_commas() {
    assert_eq!(join_with_commas(&vec![]), "");
    assert_eq!(join_with_commas(&vec!["a"]), "a");
    assert_eq!(join_with_commas(&vec!["a", "bc", "", "d"]), "a,bc,,d");
}

#[test]
fn same_text_compares_characters() {
    assert!(same_text("", ""));
    assert!(same_text("data", "data"));
    assert!(same_text("ü", "ü"));
    assert!(!same_text("data", "date"));
    assert!(!same_text("data", "dat"));
    assert!(!same_text("", "a"));
}

#[test]
fn integers_are_read_from_their_text() {
    assert_eq!(parse_integer("0"), Some(0));
    assert_eq!(parse_integer("7"), Some(7));
    assert_eq!(parse_integer("-7"), Some(-7));
    assert_eq!(parse_integer("404"), Some(404));
    assert_eq!(parse_integer("9223372036854775807"), Some(i64::MAX));
    assert_eq!(parse_integer("-9223372036854775808"), Some(i64::MIN));
    for n in [-1000i64, -10, -9, 1, 9, 10, 11, 99, 100, 123456789] {
        assert_eq!(parse_integer(&n.to_string()), Some(n));
        assert_eq!(parse_integer(&signed_text(n)), Some(n));
    }
}

#[test]
fn texts_that_are_no_integer_of_64_bits_are_not_read() {
    for text in [
        "",
        "-",
        "+1",
        "-0",
        "00",
        "007",
        "-01",
        "1.0",
        "1e3",
        " 1",
        "1 ",
        "12a",
        "a12",
        "--1",
        "1-",
        "٣",
        "9223372036854775808",
        "-9223372036854775809",
        "18446744073709551615",
        "99999999999999999999999999",
    ] {
        assert_eq!(parse_integer(text), None, "{:?}", text);
    }
}

#[test]
fn json_number_texts() {
    for text in ["0", "-0", "5", "-5", "10", "0.0", "3.14", "1e0", "1E+2", "1e-2", "-1.5e10"] {
        assert!(is_json_number(text), "{:?}", text);
    }
    for text in [
        "", "-", "--1", "00", "-01", "1.", "1.e2", ".1", "e1", "1e", "1e-", "1e+-2", "1.2.3",
        "1e2e3", "1 ", "1a", "+1", "١",
    ] {
        assert!(!is_json_number(text), "{:?}", text);
    }
}
