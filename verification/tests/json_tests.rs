use candid_gen::json::Json;

#[test]
fn parse_reads_every_kind_of_value() {
    assert_eq!(Json::parse("null").unwrap(), Json::Null);
    assert_eq!(Json::parse(" true ").unwrap(), Json::Bool(true));
    assert_eq!(Json::parse("false").unwrap(), Json::Bool(false));
    assert_eq!(Json::parse("12").unwrap(), Json::Number("12".to_string()));
    assert_eq!(Json::parse("-12").unwrap(), Json::Number("-12".to_string()));
    assert_eq!(Json::parse("0.25").unwrap(), Json::Number("0.25".to_string()));
    assert_eq!(Json::parse("\"a\\nb\"").unwrap(), Json::Str("a\nb".to_string()));
    assert_eq!(
        Json::parse("[1, \"x\", []]").unwrap(),
        Json::Array(vec![
            Json::Number("1".to_string()),
            Json::Str("x".to_string()),
            Json::Array(Vec::new()),
        ])
    );
    assert_eq!(
        Json::parse("{\"k\": {\"n\": null}}").unwrap(),
        Json::Object(vec![(
            "k".to_string(),
            Json::Object(vec![("n".to_string(), Json::Null)]),
        )])
    );
}

#[test]
fn parse_keeps_one_member_of_each_name() {
    let parsed = Json::parse("{\"a\": 1, \"b\": 2, \"a\": 3}").unwrap();
    assert_eq!(parsed.get("a"), Some(&Json::Number("3".to_string())));
    assert_eq!(parsed.get("b"), Some(&Json::Number("2".to_string())));
    assert_eq!(parsed.as_object().unwrap().len(), 2);
}

#[test]
fn parse_refuses_what_is_no_json() {
    assert!(Json::parse("").is_err());
    assert!(Json::parse("{").is_err());
    assert!(Json::parse("nul").is_err());
    assert!(Json::parse("1 2").is_err());
    let error = Json::parse("{\"a\" 1}").unwrap_err();
    assert_eq!(error.message, "expected `:` at line 1 column 6");
}

#[test]
fn get_gives_the_last_member_of_a_name() {
    let object = Json::Object(vec![
        ("a".to_string(), Json::Bool(false)),
        ("b".to_string(), Json::Null),
        ("a".to_string(), Json::Bool(true)),
    ]);
    assert_eq!(object.get("a"), Some(&Json::Bool(true)));
    assert_eq!(object.get("b"), Some(&Json::Null));
    assert_eq!(object.get("c"), None);
    assert_eq!(object.get(""), None);
}

#[test]
fn get_gives_nothing_for_what_is_no_object() {
    assert_eq!(Json::Null.get("a"), None);
    assert_eq!(Json::Str("a".to_string()).get("a"), None);
    assert_eq!(Json::Array(vec![Json::Str("a".to_string())]).get("a"), None);
}

#[test]
fn as_str_and_as_object_tell_the_kinds_apart() {
    assert_eq!(Json::Str("x".to_string()).as_str(), Some("x"));
    assert_eq!(Json::Str(String::new()).as_str(), Some(""));
    assert_eq!(Json::Number("1".to_string()).as_str(), None);
    assert_eq!(Json::Null.as_str(), None);
    assert!(Json::Object(Vec::new()).as_object().unwrap().is_empty());
    assert!(Json::Array(Vec::new()).as_object().is_none());
    assert!(Json::Str("{}".to_string()).as_object().is_none());
}

#[test]
fn clone_copies_the_whole_value() {
    let value = Json::parse("{\"a\": [1, {\"b\": [true, null, \"s\"]}], \"c\": {}}").unwrap();
    assert_eq!(value.clone(), value);
}
