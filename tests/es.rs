use lproj2es::error::ErrorKind;
use lproj2es::es::{bulk_action, bulk_body, count_created, create_index_reply, index_settings};
use lproj2es::json::Json;

fn s(x: &str) -> Json {
    Json::Str(x.to_string())
}

fn obj(ms: Vec<(&str, Json)>) -> Json {
    Json::Object(ms.into_iter().map(|(k, v)| (k.to_string(), v)).collect())
}

fn item(status: i128) -> Json {
    obj(vec![("index", obj(vec![("status", Json::Int(status))]))])
}

#[test]
fn empty_bulk_sends_nothing() {
    assert!(bulk_body(b"{}", &vec![]).is_none());
}

#[test]
fn bulk_body_frames_each_document() {
    let body = bulk_body(b"A", &vec![b"d1".to_vec(), b"d2".to_vec()]).unwrap();
    assert_eq!(body, b"A\nd1\nA\nd2\n".to_vec());
}

#[test]
fn created_items_are_counted() {
    let reply = obj(vec![(
        "items",
        Json::Array(vec![item(201), item(409), item(201), obj(vec![]), item(200)]),
    )]);
    assert_eq!(count_created(&reply), 2);
    assert_eq!(count_created(&obj(vec![("errors", Json::Bool(true))])), 0);
    assert_eq!(count_created(&obj(vec![("items", Json::Array(vec![]))])), 0);
}

#[test]
fn index_settings_body() {
    let b = index_settings("ios", 3, 2);
    let settings = b.get("settings").unwrap();
    assert!(matches!(settings.get("number_of_shards"), Some(Json::Int(3))));
    assert!(matches!(settings.get("number_of_replicas"), Some(Json::Int(2))));
    let mapping = b.get("mappings").unwrap().get("ios").unwrap();
    assert!(matches!(mapping.get("dynamic"), Some(Json::Bool(true))));
    assert!(matches!(mapping.get("_all").unwrap().get("enabled"), Some(Json::Bool(false))));
}

#[test]
fn bulk_action_names_index_and_type() {
    let a = bulk_action("localizations", "ios");
    let target = a.get("index").unwrap();
    assert!(matches!(target.get("_index"), Some(Json::Str(x)) if x == "localizations"));
    assert!(matches!(target.get("_type"), Some(Json::Str(x)) if x == "ios"));
}

#[test]
fn created_index_is_acknowledged() {
    let r = create_index_reply(obj(vec![("acknowledged", Json::Bool(true))]));
    assert!(matches!(r, Ok(None)));
}

#[test]
fn existing_index_is_a_warning() {
    let reply = obj(vec![(
        "error",
        obj(vec![("type", s("index_already_exists_exception")), ("reason", s("index [x] already exists"))]),
    )]);
    assert_eq!(create_index_reply(reply).unwrap(), Some("index [x] already exists".to_string()));
    let bare = obj(vec![("error", obj(vec![("type", s("index_already_exists_exception"))]))]);
    assert_eq!(create_index_reply(bare).unwrap(), Some("localization index already exists".to_string()));
}

#[test]
fn other_replies_are_errors() {
    let reply = obj(vec![("error", obj(vec![("type", s("mapper_parsing_exception"))]))]);
    match create_index_reply(reply) {
        Err(ErrorKind::CreateIndexUnexpectedReply(j)) => {
            assert!(j.get("error").is_some());
        }
        _ => panic!("expected an error"),
    }
    assert!(create_index_reply(obj(vec![("acknowledged", Json::Bool(false))])).is_err());
}
