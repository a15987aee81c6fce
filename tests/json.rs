use lproj2es::json::{put_member, Json};

#[test]
fn get_finds_the_first_member() {
    let j = Json::Object(vec![
        ("a".to_string(), Json::Int(1)),
        ("b".to_string(), Json::Int(2)),
        ("a".to_string(), Json::Int(3)),
    ]);
    assert!(matches!(j.get("a"), Some(Json::Int(1))));
    assert!(matches!(j.get("b"), Some(Json::Int(2))));
    assert!(j.get("c").is_none());
    assert!(Json::Int(1).get("a").is_none());
}

#[test]
fn into_member_takes_the_value() {
    let j = Json::Object(vec![("x".to_string(), Json::Str("v".to_string()))]);
    assert!(matches!(j.into_member("x"), Some(Json::Str(v)) if v == "v"));
    let k = Json::Array(vec![]);
    assert!(k.into_member("x").is_none());
}

#[test]
fn put_member_replaces_or_appends() {
    let mut ms = vec![("a".to_string(), Json::Int(1))];
    put_member(&mut ms, "a", Json::Int(2));
    assert_eq!(ms.len(), 1);
    assert!(matches!(ms[0].1, Json::Int(2)));
    put_member(&mut ms, "b", Json::Null);
    assert_eq!(ms.len(), 2);
    assert_eq!(ms[1].0, "b");
}
