use akkurate::json::{parse_json, Json};

fn parse(s: &str) -> Json {
    parse_json(s).expect("expected a parse")
}

#[test]
fn scalars_parse() {
    assert!(matches!(parse("null"), Json::Null));
    assert!(matches!(parse("true"), Json::Bool(true)));
    assert!(matches!(parse("false"), Json::Bool(false)));
    match parse("\"hi\"") {
        Json::Str(s) => assert_eq!(s, "hi"),
        _ => panic!("expected a string"),
    }
}

#[test]
fn numbers_keep_their_text() {
    for t in ["0", "-1", "12", "2.5", "-0.125", "1e9", "2.5e-3", "3E+4"] {
        match parse(t) {
            Json::Num(raw) => assert_eq!(raw, t),
            _ => panic!("expected a number for {t}"),
        }
    }
}

#[test]
fn malformed_documents_are_rejected() {
    for t in [
        "", "nul", "tru", "01", "1.", ".5", "1e", "-", "\"open", "[1,]", "[1 2]", "{\"a\":}",
        "{\"a\" 1}", "{a:1}", "[1] x", "{}{}", "\"\\q\"", "\"\t\"", "\"\\uD800\"",
        "\"\\uDC00\\uDC00\"", "\"\\u12\"",
    ] {
        assert!(parse_json(t).is_none(), "expected rejection for {t:?}");
    }
}

#[test]
fn whitespace_is_allowed_around_tokens() {
    match parse(" { \"a\" : [ 1 , true ] } ") {
        Json::Obj(members) => {
            assert_eq!(members.len(), 1);
            assert_eq!(members[0].key, "a");
            match &members[0].value {
                Json::Arr(items) => {
                    assert_eq!(items.len(), 2);
                    assert!(matches!(&items[0], Json::Num(n) if n == "1"));
                    assert!(matches!(items[1], Json::Bool(true)));
                }
                _ => panic!("expected an array"),
            }
        }
        _ => panic!("expected an object"),
    }
}

#[test]
fn string_escapes_decode() {
    match parse("\"a\\\"b\\\\c\\/d\\n\\t\\r\\b\\f\"") {
        Json::Str(s) => assert_eq!(s, "a\"b\\c/d\n\t\r\u{8}\u{c}"),
        _ => panic!("expected a string"),
    }
    match parse("\"\\u0041\\u00e9\\u4e2d\"") {
        Json::Str(s) => assert_eq!(s, "Aé中"),
        _ => panic!("expected a string"),
    }
    match parse("\"\\uD83D\\uDE00\"") {
        Json::Str(s) => assert_eq!(s, "😀"),
        _ => panic!("expected a string"),
    }
}

#[test]
fn non_ascii_text_passes_through() {
    match parse("\"中文 текст\"") {
        Json::Str(s) => assert_eq!(s, "中文 текст"),
        _ => panic!("expected a string"),
    }
}

#[test]
fn nested_structures_parse() {
    let doc = "{\"a\":{\"b\":[{\"c\":null}]},\"d\":[[],{}]}";
    let v = parse(doc);
    let a = v.get("a").expect("a");
    let b = a.get("b").expect("b");
    match b {
        Json::Arr(items) => {
            assert_eq!(items.len(), 1);
            assert!(matches!(items[0].get("c"), Some(Json::Null)));
        }
        _ => panic!("expected an array"),
    }
    assert!(v.get("missing").is_none());
}

#[test]
fn get_takes_the_first_member_with_the_key() {
    let v = parse("{\"k\":1,\"k\":2}");
    match v.get("k") {
        Some(Json::Num(n)) => assert_eq!(n, "1"),
        _ => panic!("expected the first member"),
    }
}

#[test]
fn empty_containers_parse() {
    assert!(matches!(parse("[]"), Json::Arr(items) if items.is_empty()));
    assert!(matches!(parse("{}"), Json::Obj(members) if members.is_empty()));
}
