use mcp_client::codec::{
    json_of_value, json_to_string, json_to_string_pretty, parse_json, value_of_json,
};
use mcp_client::json::{text_member, Json};

fn text(s: &str) -> Json {
    Json::Text(s.to_string())
}

fn number(n: u64) -> Json {
    Json::Number(serde_json::Number::from(n))
}

fn object(members: Vec<(&str, Json)>) -> Json {
    Json::Object(members.into_iter().map(|(k, v)| (k.to_string(), v)).collect())
}

#[test]
fn parses_every_kind_of_value() {
    let json = parse_json("{\"a\":[null,true,\"x\",7],\"b\":{}}").unwrap();
    match json.get("a") {
        Some(Json::Array(items)) => {
            assert_eq!(items.len(), 4);
            assert!(matches!(items[0], Json::Null));
            assert_eq!(items[1].as_bool(), Some(true));
            assert_eq!(items[2].as_text(), Some("x".to_string()));
            assert!(matches!(&items[3], Json::Number(n) if n.as_u64() == Some(7)));
        }
        other => panic!("unexpected {:?}", other),
    }
    assert!(matches!(json.get("b"), Some(Json::Object(members)) if members.is_empty()));
}

#[test]
fn rejects_what_is_no_json() {
    assert!(parse_json("").is_err());
    assert!(parse_json("{").is_err());
    assert!(parse_json("{} x").is_err());
    assert!(parse_json("not json").is_err());
}

#[test]
fn last_member_of_a_name_counts() {
    let json = object(vec![("k", text("first")), ("other", Json::Null), ("k", text("last"))]);
    assert_eq!(text_member(&json, "k"), Some("last".to_string()));
    assert_eq!(json_to_string(&json), "{\"k\":\"last\",\"other\":null}");
    let parsed = parse_json("{\"k\":\"first\",\"k\":\"last\"}").unwrap();
    assert_eq!(text_member(&parsed, "k"), Some("last".to_string()));
}

#[test]
fn members_are_found_in_objects_only() {
    let json = object(vec![("k", text("v"))]);
    assert!(json.get("k").is_some());
    assert!(json.get("K").is_none());
    assert!(Json::Array(vec![object(vec![("k", text("v"))])]).get("k").is_none());
    assert!(text("k").get("k").is_none());
    assert!(Json::Null.get("k").is_none());
}

#[test]
fn a_member_that_is_no_string_has_no_text() {
    let json = object(vec![("n", number(5)), ("z", Json::Null), ("b", Json::Bool(false))]);
    assert_eq!(text_member(&json, "n"), None);
    assert_eq!(text_member(&json, "z"), None);
    assert_eq!(text_member(&json, "missing"), None);
    assert_eq!(json.get("b").unwrap().as_bool(), Some(false));
    assert_eq!(json.get("n").unwrap().as_bool(), None);
    assert_eq!(json.get("n").unwrap().as_text(), None);
}

#[test]
fn writes_on_one_line() {
    let json = object(vec![
        ("b", Json::Array(vec![number(1), Json::Bool(true), Json::Null])),
        ("a", text("q\"uote")),
    ]);
    assert_eq!(json_to_string(&json), "{\"a\":\"q\\\"uote\",\"b\":[1,true,null]}");
}

#[test]
fn writes_indented() {
    let json = object(vec![("a", number(1)), ("b", Json::Array(vec![]))]);
    assert_eq!(
        json_to_string_pretty(&json),
        Some("{\n  \"a\": 1,\n  \"b\": []\n}".to_string())
    );
}

#[test]
fn numbers_survive_the_way_there_and_back() {
    let source = "[0,18446744073709551615,-7,1.5,1e300]";
    let value: serde_json::Value = serde_json::from_str(source).unwrap();
    assert_eq!(value_of_json(&json_of_value(&value)), value);
    assert_eq!(value_of_json(&parse_json(source).unwrap()), value);
}

#[test]
fn nested_documents_survive_the_way_there_and_back() {
    let source = "{\"x\":{\"y\":[{\"z\":\"w\"},[],{}]},\"n\":null,\"t\":true}";
    let value: serde_json::Value = serde_json::from_str(source).unwrap();
    assert_eq!(value_of_json(&json_of_value(&value)), value);
    assert_eq!(json_to_string(&parse_json(source).unwrap()), value.to_string());
}

#[test]
fn a_copy_is_the_same_document() {
    let json = parse_json("{\"x\":[1,{\"y\":\"z\"}],\"b\":false}").unwrap();
    assert_eq!(json_to_string(&json.clone()), json_to_string(&json));
}

#[test]
fn the_last_member_of_a_name_is_written() {
    let twice = object(vec![("b", number(1)), ("a", number(2)), ("b", text("x")), ("b", number(3))]);
    assert_eq!(json_to_string(&twice), "{\"a\":2,\"b\":3}");
    assert_eq!(json_to_string(&object(vec![])), "{}");
}
