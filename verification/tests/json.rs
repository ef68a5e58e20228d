use ci_oidc::json::{Json, JsonNumber, JsonObject};

fn parse(text: &str) -> Json {
    Json::from_parsed(serde_json::from_str(text).unwrap())
}

#[test]
fn every_kind_of_value_is_taken_over() {
    assert!(matches!(parse("null"), Json::Null));
    assert!(matches!(parse("true"), Json::Bool(true)));
    assert!(matches!(parse("7"), Json::Number(JsonNumber::PosInt(7))));
    assert!(matches!(parse("-7"), Json::Number(JsonNumber::NegInt(-7))));
    assert!(matches!(
        parse("18446744073709551615"),
        Json::Number(JsonNumber::PosInt(u64::MAX))
    ));
    match parse("1.5") {
        Json::Number(JsonNumber::Float(bits)) => assert_eq!(f64::from_bits(bits), 1.5),
        other => panic!("not a double: {:?}", other),
    }
    match parse("[1, \"a\"]") {
        Json::Array(items) => {
            assert_eq!(items.len(), 2);
            assert_eq!(items[1].as_str(), Some("a"));
        }
        other => panic!("not an array: {:?}", other),
    }
    let object = parse("{\"a\": {\"b\": \"c\"}}");
    assert_eq!(object.get("a").unwrap().get_str("b"), Some("c"));
}

#[test]
fn members_compare_without_regard_to_order() {
    let mut first = JsonObject::new();
    first.insert("a".to_string(), Json::Bool(true));
    first.insert("b".to_string(), Json::Null);
    let mut second = JsonObject::new();
    second.insert("b".to_string(), Json::Null);
    second.insert("a".to_string(), Json::Bool(true));
    assert!(first.equals(&second));
    second.insert("c".to_string(), Json::Null);
    assert!(!first.equals(&second));
    assert!(!second.equals(&first));
    first.insert("d".to_string(), Json::Null);
    assert!(!first.equals(&second));
}

#[test]
fn inserting_replaces_the_member() {
    let mut object = JsonObject::new();
    object.insert("a".to_string(), Json::Bool(true));
    object.insert("a".to_string(), Json::Bool(false));
    assert_eq!(object.len(), 1);
    assert!(matches!(object.get("a"), Some(Json::Bool(false))));
    assert!(object.get("b").is_none());
    assert!(object.entry(1).is_none());
    let (name, value) = object.entry(0).unwrap();
    assert_eq!(name, "a");
    assert!(matches!(value, Json::Bool(false)));
}

#[test]
fn numbers_compare_within_their_form() {
    assert!(parse("0.0").equals(&parse("-0.0")));
    assert!(parse("1.5").equals(&parse("15e-1")));
    assert!(!parse("1").equals(&parse("1.0")));
    assert!(!parse("0").equals(&parse("-0.0")));
    assert!(!parse("1").equals(&parse("-1")));
    assert!(parse("-3").equals(&parse("-3")));
    assert!(!parse("2.5").equals(&parse("2.25")));
}

#[test]
fn values_of_different_kinds_differ() {
    let texts = ["null", "false", "0", "\"\"", "[]", "{}"];
    for (i, a) in texts.iter().enumerate() {
        for (j, b) in texts.iter().enumerate() {
            assert_eq!(parse(a).equals(&parse(b)), i == j);
        }
    }
}

#[test]
fn arrays_compare_item_by_item() {
    assert!(parse("[1, [2, {\"a\": 3}]]").equals(&parse("[1, [2, {\"a\": 3}]]")));
    assert!(!parse("[1, 2]").equals(&parse("[2, 1]")));
    assert!(!parse("[1]").equals(&parse("[1, 1]")));
}

#[test]
fn members_are_found_in_objects_only() {
    assert!(parse("[1]").get("a").is_none());
    assert!(matches!(parse("{\"a\": null}").get("a"), Some(Json::Null)));
    assert!(parse("{\"b\": null}").get("a").is_none());
    assert!(parse("\"a\"").get("a").is_none());
    assert_eq!(parse("{\"a\": 1}").get_str("a"), None);
    assert_eq!(parse("{\"a\": \"x\"}").get_str("a"), Some("x"));
    assert_eq!(parse("{}").get_str("a"), None);
}

#[test]
fn a_copy_equals_the_value() {
    let value = parse("{\"a\": [1, null, -2.5, \"x\"], \"b\": {\"c\": true}}");
    assert!(value.clone().equals(&value));
}
