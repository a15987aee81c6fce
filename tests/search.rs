use lproj2es::json::Json;
use lproj2es::search::{construct_search_query, language_fields, parse_search_result};

fn s(x: &str) -> Json {
    Json::Str(x.to_string())
}

fn obj(ms: Vec<(&str, Json)>) -> Json {
    Json::Object(ms.into_iter().map(|(k, v)| (k.to_string(), v)).collect())
}

fn int_of(j: Option<&Json>) -> Option<i128> {
    match j {
        Some(Json::Int(n)) => Some(*n),
        _ => None,
    }
}

fn text(j: Option<&Json>) -> Option<&str> {
    match j {
        Some(Json::Str(t)) => Some(t.as_str()),
        _ => None,
    }
}

fn single_member(j: &Json) -> (&str, &Json) {
    match j {
        Json::Object(ms) => {
            assert_eq!(ms.len(), 1);
            (ms[0].0.as_str(), &ms[0].1)
        }
        _ => panic!("not an object"),
    }
}

/// The names of the target levels, outermost first.
fn target_levels(query: &Json, source: &str) -> Vec<String> {
    let mut aggs = query.get("aggregations").unwrap().get(source).unwrap().get("aggregations").unwrap();
    let mut names = Vec::new();
    loop {
        let (name, level) = single_member(aggs);
        if name == "entry" {
            return names;
        }
        names.push(name.to_string());
        aggs = level.get("aggregations").unwrap();
    }
}

fn hit(doc: Json) -> Json {
    obj(vec![("hits", obj(vec![("hits", Json::Array(vec![doc]))]))])
}

fn leaf(key: &str, count: i128, doc: Json) -> Json {
    obj(vec![("key", s(key)), ("doc_count", Json::Int(count)), ("entry", hit(doc))])
}

fn level(name: &str, buckets: Vec<Json>) -> (String, Json) {
    (name.to_string(), obj(vec![("buckets", Json::Array(buckets))]))
}

fn bucket(key: &str, count: i128, inner: (String, Json)) -> Json {
    Json::Object(vec![
        ("key".to_string(), s(key)),
        ("doc_count".to_string(), Json::Int(count)),
        inner,
    ])
}

#[test]
fn query_shape() {
    let q = construct_search_query("en_US", &vec!["fr_FR".to_string()], "Hi");
    assert_eq!(int_of(q.get("size")), Some(0));
    assert_eq!(text(q.get("query").unwrap().get("match").unwrap().get("en_US")), Some("Hi"));
    let src = q.get("aggregations").unwrap().get("en_US").unwrap();
    let terms = src.get("terms").unwrap();
    assert_eq!(text(terms.get("field")), Some("en_US.keyword"));
    assert_eq!(text(terms.get("collect_mode")), Some("breadth_first"));
    assert_eq!(int_of(terms.get("size")), Some(100));
    assert!(terms.get("missing").is_none());
    let fr = src.get("aggregations").unwrap().get("fr_FR").unwrap();
    assert_eq!(text(fr.get("terms").unwrap().get("field")), Some("fr_FR.keyword"));
    assert_eq!(text(fr.get("terms").unwrap().get("missing")), Some(""));
    let entry = fr.get("aggregations").unwrap().get("entry").unwrap();
    assert_eq!(int_of(entry.get("top_hits").unwrap().get("size")), Some(1));
}

#[test]
fn nesting_follows_target_order() {
    let ab = construct_search_query("en_US", &vec!["fr_FR".to_string(), "de_DE".to_string()], "Hi");
    let ba = construct_search_query("en_US", &vec!["de_DE".to_string(), "fr_FR".to_string()], "Hi");
    assert_eq!(target_levels(&ab, "en_US"), vec!["fr_FR", "de_DE"]);
    assert_eq!(target_levels(&ba, "en_US"), vec!["de_DE", "fr_FR"]);
}

#[test]
fn no_targets_puts_the_hit_under_the_source_level() {
    let q = construct_search_query("en_US", &vec![], "Hi");
    assert!(target_levels(&q, "en_US").is_empty());
}

#[test]
fn flatten_gives_one_document_per_leaf() {
    let leaves = vec![
        leaf("Salut", 3, obj(vec![("KEY", s("hello"))])),
        leaf("Bonjour", 1, obj(vec![("KEY", s("hi"))])),
        leaf("Allo", 7, obj(vec![("KEY", s("hey"))])),
    ];
    let response = Json::Object(vec![(
        "aggregations".to_string(),
        Json::Object(vec![level("en_US", vec![bucket("Hi", 11, level("fr_FR", leaves))])]),
    )]);
    let docs = parse_search_result(response);
    assert_eq!(docs.len(), 3);
    let mut found: Vec<(String, i128)> = docs
        .iter()
        .map(|d| (text(d.get("KEY")).unwrap().to_string(), int_of(d.get("_count")).unwrap()))
        .collect();
    found.sort();
    assert_eq!(
        found,
        vec![("hello".to_string(), 3), ("hey".to_string(), 7), ("hi".to_string(), 1)]
    );
}

#[test]
fn missing_translation_is_its_own_bucket() {
    let q = construct_search_query("en_US", &vec!["fr_FR".to_string(), "de_DE".to_string()], "Hi");
    let de = q.get("aggregations").unwrap().get("en_US").unwrap().get("aggregations").unwrap()
        .get("fr_FR").unwrap().get("aggregations").unwrap().get("de_DE").unwrap();
    assert_eq!(text(de.get("terms").unwrap().get("missing")), Some(""));
    let doc = obj(vec![("en_US", s("Hi")), ("fr_FR", s("Salut")), ("KEY", s("hello"))]);
    let response = obj(vec![
        ("took", Json::Int(3)),
        (
            "aggregations",
            Json::Object(vec![level(
                "en_US",
                vec![bucket("Hi", 1, level("fr_FR", vec![bucket("Salut", 1, level("de_DE", vec![leaf("", 1, doc)]))]))],
            )]),
        ),
    ]);
    let docs = parse_search_result(response);
    assert_eq!(docs.len(), 1);
    assert_eq!(text(docs[0].get("fr_FR")), Some("Salut"));
    assert!(docs[0].get("de_DE").is_none());
    assert_eq!(int_of(docs[0].get("_count")), Some(1));
}

#[test]
fn malformed_branches_are_passed_over() {
    let good = leaf("x", 2, obj(vec![("KEY", s("k"))]));
    let response = obj(vec![(
        "aggregations",
        obj(vec![
            ("broken", obj(vec![("no_buckets", Json::Null)])),
            ("odd", Json::Int(5)),
            ("en_US", obj(vec![("buckets", Json::Array(vec![good, Json::Null]))])),
            ("empty_hits", obj(vec![("buckets", Json::Array(vec![obj(vec![("doc_count", Json::Int(4)), ("entry", obj(vec![("hits", obj(vec![("hits", Json::Array(vec![]))]))]))])]))])),
        ]),
    )]);
    let docs = parse_search_result(response);
    assert_eq!(docs.len(), 1);
    assert_eq!(int_of(docs[0].get("_count")), Some(2));
}

#[test]
fn response_without_aggregations_gives_nothing() {
    assert!(parse_search_result(obj(vec![("took", Json::Int(1))])).is_empty());
    assert!(parse_search_result(Json::Null).is_empty());
}

#[test]
fn existing_count_member_is_replaced() {
    let doc = obj(vec![("_count", Json::Int(99)), ("KEY", s("k"))]);
    let response = obj(vec![("aggregations", obj(vec![("en_US", obj(vec![("buckets", Json::Array(vec![leaf("x", 5, doc)]))]))]))]);
    let docs = parse_search_result(response);
    assert_eq!(docs.len(), 1);
    assert_eq!(int_of(docs[0].get("_count")), Some(5));
    match &docs[0] {
        Json::Object(ms) => assert_eq!(ms.len(), 2),
        _ => panic!("not an object"),
    }
}

#[test]
fn language_fields_are_the_underscored_properties() {
    let props = obj(vec![
        ("BUNDLE", obj(vec![])),
        ("en_US", obj(vec![])),
        ("KEY", obj(vec![])),
        ("fr_FR", obj(vec![])),
    ]);
    let reply = obj(vec![("localizations", obj(vec![("mappings", obj(vec![("ios", obj(vec![("properties", props)]))]))]))]);
    assert_eq!(language_fields(&reply, "localizations", "ios"), vec!["en_US".to_string(), "fr_FR".to_string()]);
    assert!(language_fields(&reply, "other", "ios").is_empty());
    assert!(language_fields(&Json::Null, "localizations", "ios").is_empty());
}

#[test]
fn flatten_counts_leaves_under_every_inner_bucket() {
    let fr1 = level("fr_FR", vec![leaf("Salut", 2, obj(vec![("KEY", s("a"))])), leaf("Allo", 4, obj(vec![("KEY", s("b"))]))]);
    let fr2 = level("fr_FR", vec![leaf("Bonjour", 9, obj(vec![("KEY", s("c"))]))]);
    let response = Json::Object(vec![(
        "aggregations".to_string(),
        Json::Object(vec![level("en_US", vec![bucket("Hi", 6, fr1), bucket("Hello", 9, fr2)])]),
    )]);
    let docs = parse_search_result(response);
    let mut found: Vec<(String, i128)> = docs
        .iter()
        .map(|d| (text(d.get("KEY")).unwrap().to_string(), int_of(d.get("_count")).unwrap()))
        .collect();
    found.sort();
    assert_eq!(found, vec![("a".to_string(), 2), ("b".to_string(), 4), ("c".to_string(), 9)]);
}
