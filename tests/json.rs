use sandbox_api::auth0::claims_of_json;
use sandbox_api::json::{get_field, get_text, get_text_list, Json};

fn s(t: &str) -> Json {
    Json::Str(t.to_string())
}

fn object(members: Vec<(&str, Json)>) -> Json {
    Json::Object(members.into_iter().map(|(k, v)| (k.to_string(), v)).collect())
}

#[test]
fn claims_are_read_verbatim_and_in_order() {
    let j = object(vec![
        ("exp", Json::Number),
        ("sub", s("auth0|erin")),
        ("permissions", Json::Array(vec![s("b:2"), s("a:1"), s("b:2")])),
    ]);
    let c = claims_of_json(&j).expect("claims");
    assert_eq!(c.sub, "auth0|erin");
    assert_eq!(c.permissions, vec!["b:2".to_string(), "a:1".to_string(), "b:2".to_string()]);
}

#[test]
fn claims_need_string_subject_and_string_list() {
    let no_sub = object(vec![("permissions", Json::Array(vec![]))]);
    assert!(claims_of_json(&no_sub).is_none());
    let number_sub = object(vec![("sub", Json::Number), ("permissions", Json::Array(vec![]))]);
    assert!(claims_of_json(&number_sub).is_none());
    let no_permissions = object(vec![("sub", s("x"))]);
    assert!(claims_of_json(&no_permissions).is_none());
    let mixed = object(vec![("sub", s("x")), ("permissions", Json::Array(vec![s("a"), Json::Null]))]);
    assert!(claims_of_json(&mixed).is_none());
    let not_list = object(vec![("sub", s("x")), ("permissions", s("a"))]);
    assert!(claims_of_json(&not_list).is_none());
    assert!(claims_of_json(&Json::Array(vec![s("x")])).is_none());
}

#[test]
fn empty_permission_list_is_accepted() {
    let j = object(vec![("sub", s("x")), ("permissions", Json::Array(vec![]))]);
    let c = claims_of_json(&j).unwrap();
    assert!(c.permissions.is_empty());
}

#[test]
fn first_member_of_a_name_is_read() {
    let j = object(vec![("k", s("first")), ("k", s("second"))]);
    assert_eq!(get_text(get_field(&j, "k").unwrap()), Some("first".to_string()));
    assert!(get_field(&j, "missing").is_none());
    assert!(get_field(&Json::Null, "k").is_none());
}

#[test]
fn text_list_reads_strings_only() {
    assert_eq!(
        get_text_list(&Json::Array(vec![s("a"), s("b")])),
        Some(vec!["a".to_string(), "b".to_string()])
    );
    assert_eq!(get_text_list(&Json::Array(vec![Json::Bool(true)])), None);
    assert_eq!(get_text_list(&s("a")), None);
    assert_eq!(get_text(&Json::Number), None);
}
