use elastic_eye::json::{set_member, Json, JsonNumber};

fn object(members: Vec<(&str, Json)>) -> Json {
    Json::object(members.into_iter().map(|(key, value)| (key.to_string(), value)).collect())
}

#[test]
fn get_finds_a_member_of_an_object() {
    let document = object(vec![("a", Json::from_i64(1)), ("b", Json::string("x"))]);
    assert_eq!(document.get("a"), Some(&Json::Number(JsonNumber::PosInt(1))));
    assert_eq!(document.get("b"), Some(&Json::String("x".to_string())));
    assert_eq!(document.get("c"), None);
}

#[test]
fn get_finds_nothing_in_what_is_no_object() {
    assert_eq!(Json::Null.get("a"), None);
    assert_eq!(Json::string("a").get("a"), None);
    assert_eq!(Json::array(vec![Json::Null]).get("0"), None);
}

#[test]
fn get_takes_the_later_of_two_members_with_one_name() {
    let document = object(vec![("a", Json::from_i64(1)), ("a", Json::from_i64(2))]);
    assert_eq!(document.get("a"), Some(&Json::from_i64(2)));
}

#[test]
fn as_str_gives_the_text_of_a_string_only() {
    assert_eq!(Json::string("x").as_str(), Some("x"));
    assert_eq!(Json::string("").as_str(), Some(""));
    assert_eq!(Json::Null.as_str(), None);
    assert_eq!(Json::from_i64(1).as_str(), None);
}

#[test]
fn as_i64_gives_integers_that_fit() {
    assert_eq!(Json::from_i64(5).as_i64(), Some(5));
    assert_eq!(Json::from_i64(-5).as_i64(), Some(-5));
    assert_eq!(Json::from_i64(i64::MIN).as_i64(), Some(i64::MIN));
    assert_eq!(Json::Number(JsonNumber::PosInt(9223372036854775807)).as_i64(), Some(i64::MAX));
    assert_eq!(Json::Number(JsonNumber::PosInt(9223372036854775808)).as_i64(), None);
    assert_eq!(Json::Number(JsonNumber::PosInt(u64::MAX)).as_i64(), None);
}

#[test]
fn as_i64_gives_nothing_for_other_values() {
    assert_eq!(Json::Number(JsonNumber::Float("1.5".to_string())).as_i64(), None);
    assert_eq!(Json::string("5").as_i64(), None);
    assert_eq!(Json::Bool(true).as_i64(), None);
    assert_eq!(Json::Null.as_i64(), None);
}

#[test]
fn from_i64_stores_the_sign_apart() {
    assert_eq!(Json::from_i64(0), Json::Number(JsonNumber::PosInt(0)));
    assert_eq!(Json::from_i64(7), Json::Number(JsonNumber::PosInt(7)));
    assert_eq!(Json::from_i64(-7), Json::Number(JsonNumber::NegInt(-7)));
}

#[test]
fn as_array_and_as_object_give_the_contents() {
    let items = vec![Json::Null, Json::Bool(true)];
    assert_eq!(Json::array(items.clone()).as_array(), Some(&items));
    assert_eq!(Json::Null.as_array(), None);
    let members = vec![("a".to_string(), Json::Null)];
    assert_eq!(Json::object(members.clone()).as_object(), Some(&members));
    assert_eq!(Json::array(Vec::new()).as_object(), None);
}

#[test]
fn strings_array_holds_each_string() {
    let names = vec!["a".to_string(), "b".to_string()];
    assert_eq!(
        Json::strings_array(&names),
        Json::Array(vec![Json::String("a".to_string()), Json::String("b".to_string())])
    );
    assert_eq!(Json::strings_array(&Vec::new()), Json::Array(Vec::new()));
}

#[test]
fn set_member_adds_a_new_member_at_the_end() {
    let mut members = vec![("a".to_string(), Json::from_i64(1))];
    set_member(&mut members, "b", Json::Bool(true));
    assert_eq!(
        members,
        vec![("a".to_string(), Json::from_i64(1)), ("b".to_string(), Json::Bool(true))]
    );
}

#[test]
fn set_member_replaces_a_member_in_its_place() {
    let mut members = vec![
        ("a".to_string(), Json::from_i64(1)),
        ("b".to_string(), Json::from_i64(2)),
    ];
    set_member(&mut members, "a", Json::Null);
    assert_eq!(members, vec![("a".to_string(), Json::Null), ("b".to_string(), Json::from_i64(2))]);
}

#[test]
fn set_member_replaces_the_member_that_get_finds() {
    let mut members = vec![
        ("a".to_string(), Json::from_i64(1)),
        ("a".to_string(), Json::from_i64(2)),
    ];
    set_member(&mut members, "a", Json::from_i64(3));
    assert_eq!(members.len(), 2);
    assert_eq!(Json::object(members).get("a"), Some(&Json::from_i64(3)));
}

#[test]
fn object_has_tells_whether_a_name_occurs() {
    let members = vec![("size".to_string(), Json::from_i64(1))];
    assert!(Json::object_has(&members, "size"));
    assert!(!Json::object_has(&members, "Size"));
    assert!(!Json::object_has(&Vec::new(), "size"));
}

#[test]
fn clone_copies_a_nested_document() {
    let document = object(vec![
        ("name", Json::string("n")),
        ("list", Json::array(vec![Json::from_i64(-1), Json::Null, Json::Bool(false)])),
        ("inner", object(vec![("x", Json::Number(JsonNumber::Float("2.5".to_string())))])),
    ]);
    assert_eq!(document.clone(), document);
}
