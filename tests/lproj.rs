use lproj2es::error::ErrorKind;
use lproj2es::json::Json;
use lproj2es::locales::locale_id;
use lproj2es::lproj::{LocalizedBundle, ParsedStrings, StringsFile};
use lproj2es::source::{companion_name, is_strings_file, read_source, SourceContents};

fn text<'a>(doc: &'a Json, name: &str) -> Option<&'a str> {
    match doc.get(name) {
        Some(Json::Str(s)) => Some(s.as_str()),
        _ => None,
    }
}

fn member_count(doc: &Json) -> usize {
    match doc {
        Json::Object(ms) => ms.len(),
        _ => 0,
    }
}

fn documents(bundle: LocalizedBundle, path: &str) -> Vec<Json> {
    let mut it = bundle.into_iter(path);
    let mut docs = Vec::new();
    while let Some(d) = it.next() {
        docs.push(d);
    }
    docs
}

fn strings_file(name: &str, contents: &str) -> StringsFile {
    StringsFile { name: name.to_string(), contents: contents.as_bytes().to_vec(), companion: None }
}

#[test]
fn merge_two_locales_into_one_document() {
    let mut bundle = LocalizedBundle::default();
    let en = vec![strings_file("Localizable.strings", r#"{ "hello" = "Hi"; }"#)];
    let fr = vec![strings_file("Localizable.strings", r#"{ "hello" = "Salut"; }"#)];
    bundle.read_lproj(locale_id("English.lproj"), &en).unwrap();
    bundle.read_lproj(locale_id("French.lproj"), &fr).unwrap();
    let docs = documents(bundle, "Foo.app");
    assert_eq!(docs.len(), 1);
    let d = &docs[0];
    assert_eq!(text(d, "BUNDLE"), Some("Foo.app"));
    assert_eq!(text(d, "FILE"), Some("Localizable.strings"));
    assert_eq!(text(d, "KEY"), Some("hello"));
    assert_eq!(text(d, "en_US"), Some("Hi"));
    assert_eq!(text(d, "fr_FR"), Some("Salut"));
    assert_eq!(member_count(d), 5);
}

#[test]
fn one_document_per_file_and_key_with_only_defining_locales() {
    let mut bundle = LocalizedBundle::new();
    let e = vec![
        ("a".to_string(), "A".to_string()),
        ("b".to_string(), "B".to_string()),
    ];
    let f = vec![("a".to_string(), "Á".to_string())];
    bundle.add_entries("en_US", "Localizable.strings", &e);
    bundle.add_entries("fr_FR", "Localizable.strings", &f);
    bundle.add_entries("fr_FR", "Other.strings", &f);
    let docs = documents(bundle, "B.bundle");
    assert_eq!(docs.len(), 3);
    let find = |file: &str, key: &str| {
        docs.iter()
            .filter(|d| text(d, "FILE") == Some(file) && text(d, "KEY") == Some(key))
            .collect::<Vec<_>>()
    };
    let a = find("Localizable.strings", "a");
    assert_eq!(a.len(), 1);
    assert_eq!(text(a[0], "en_US"), Some("A"));
    assert_eq!(text(a[0], "fr_FR"), Some("Á"));
    let b = find("Localizable.strings", "b");
    assert_eq!(b.len(), 1);
    assert_eq!(text(b[0], "en_US"), Some("B"));
    assert_eq!(text(b[0], "fr_FR"), None);
    assert_eq!(member_count(b[0]), 4);
    let other = find("Other.strings", "a");
    assert_eq!(other.len(), 1);
    assert_eq!(text(other[0], "en_US"), None);
    assert_eq!(text(other[0], "fr_FR"), Some("Á"));
}

#[test]
fn later_value_of_a_locale_wins() {
    let mut bundle = LocalizedBundle::new();
    bundle.add_entry("en_US", "L.strings", "k", "first".to_string());
    bundle.add_entry("en_US", "L.strings", "k", "second".to_string());
    let docs = documents(bundle, "X");
    assert_eq!(docs.len(), 1);
    assert_eq!(text(&docs[0], "en_US"), Some("second"));
}

#[test]
fn empty_bundle_has_no_documents() {
    let docs = documents(LocalizedBundle::new(), "Empty.app");
    assert!(docs.is_empty());
}

#[test]
fn unparsable_file_is_skipped() {
    assert!(matches!(read_source(b"{ \"a\" = "), SourceContents::Unparsable));
    let mut bundle = LocalizedBundle::new();
    let files = vec![
        strings_file("Broken.strings", "{ \"a\" = "),
        strings_file("Good.strings", r#"{ "a" = "x"; }"#),
    ];
    bundle.read_lproj("en_US", &files).unwrap();
    let docs = documents(bundle, "P");
    assert_eq!(docs.len(), 1);
    assert_eq!(text(&docs[0], "FILE"), Some("Good.strings"));
}

#[test]
fn root_that_is_not_a_dictionary_is_an_error() {
    assert!(matches!(read_source(b"( \"a\", \"b\" )"), SourceContents::NotDictionary));
    let mut bundle = LocalizedBundle::new();
    let files = vec![strings_file("List.strings", "( \"a\", \"b\" )")];
    let r = bundle.read_lproj("en_US", &files);
    assert!(matches!(r, Err(ErrorKind::InvalidPlist)));
}

#[test]
fn structured_values_become_pretty_json() {
    let src = read_source(br#"{ "list" = ( "a", "b" ); "plain" = "p"; }"#);
    match src {
        SourceContents::Entries(es) => {
            assert_eq!(es.len(), 2);
            let list = es.iter().find(|(k, _)| k == "list").unwrap();
            assert_eq!(list.1, "[\n  \"a\",\n  \"b\"\n]");
            let plain = es.iter().find(|(k, _)| k == "plain").unwrap();
            assert_eq!(plain.1, "p");
        }
        _ => panic!("expected entries"),
    }
}

#[test]
fn xml_property_lists_are_read() {
    let xml = r#"<?xml version="1.0" encoding="UTF-8"?>
<!DOCTYPE plist PUBLIC "-//Apple//DTD PLIST 1.0//EN" "http://www.apple.com/DTDs/PropertyList-1.0.dtd">
<plist version="1.0"><dict><key>n</key><integer>42</integer><key>t</key><true/></dict></plist>"#;
    match read_source(xml.as_bytes()) {
        SourceContents::Entries(es) => {
            assert_eq!(es, vec![("n".to_string(), "42".to_string()), ("t".to_string(), "true".to_string())]);
        }
        _ => panic!("expected entries"),
    }
}

#[test]
fn companion_file_merges_under_the_base_name() {
    let mut bundle = LocalizedBundle::new();
    let file = StringsFile {
        name: "Localizable.strings".to_string(),
        contents: br#"{ "a" = "x"; }"#.to_vec(),
        companion: Some(br#"{ "b" = "y"; }"#.to_vec()),
    };
    bundle.read_lproj("en_US", &vec![file]).unwrap();
    let docs = documents(bundle, "C");
    assert_eq!(docs.len(), 2);
    for d in &docs {
        assert_eq!(text(d, "FILE"), Some("Localizable.strings"));
    }
}

#[test]
fn strings_file_names() {
    assert!(is_strings_file("Localizable.strings"));
    assert!(!is_strings_file(".strings"));
    assert!(!is_strings_file("Localizable.stringsdict"));
    assert_eq!(companion_name("Localizable.strings"), "Localizable.stringsdict");
}

fn entries(pairs: &[(&str, &str)]) -> SourceContents {
    SourceContents::Entries(pairs.iter().map(|(k, v)| (k.to_string(), v.to_string())).collect())
}

#[test]
fn reading_stops_at_the_first_invalid_file() {
    let mut bundle = LocalizedBundle::new();
    let ps = vec![
        ParsedStrings { name: "A.strings".to_string(), contents: entries(&[("a", "1")]), companion: None },
        ParsedStrings { name: "B.strings".to_string(), contents: SourceContents::NotDictionary, companion: None },
        ParsedStrings { name: "C.strings".to_string(), contents: entries(&[("c", "3")]), companion: None },
    ];
    assert!(matches!(bundle.add_lproj("en_US", &ps), Err(ErrorKind::InvalidPlist)));
    let docs = documents(bundle, "S");
    assert_eq!(docs.len(), 1);
    assert_eq!(text(&docs[0], "FILE"), Some("A.strings"));
}

#[test]
fn companion_is_not_read_after_an_invalid_file() {
    let mut bundle = LocalizedBundle::new();
    let p = ParsedStrings {
        name: "A.strings".to_string(),
        contents: SourceContents::NotDictionary,
        companion: Some(entries(&[("x", "y")])),
    };
    assert!(bundle.add_strings("en_US", &p).is_err());
    assert!(documents(bundle, "S").is_empty());
}

#[test]
fn unparsable_base_still_reads_the_companion() {
    let mut bundle = LocalizedBundle::new();
    let p = ParsedStrings {
        name: "A.strings".to_string(),
        contents: SourceContents::Unparsable,
        companion: Some(entries(&[("x", "y")])),
    };
    assert!(bundle.add_strings("de_DE", &p).is_ok());
    let docs = documents(bundle, "S");
    assert_eq!(docs.len(), 1);
    assert_eq!(text(&docs[0], "de_DE"), Some("y"));
    assert_eq!(text(&docs[0], "FILE"), Some("A.strings"));
}

#[test]
fn dates_are_not_written_as_text() {
    let xml = r#"<?xml version="1.0" encoding="UTF-8"?>
<plist version="1.0"><dict><key>when</key><date>2020-01-01T00:00:00Z</date></dict></plist>"#;
    assert!(matches!(read_source(xml.as_bytes()), SourceContents::Unparsable));
}

#[test]
fn binary_plist_with_an_ancient_date_is_unparsable() {
    let mut b: Vec<u8> = b"bplist00".to_vec();
    b.extend_from_slice(&[0xD1, 0x01, 0x02]);
    b.extend_from_slice(&[0x51, b'd']);
    b.push(0x33);
    b.extend_from_slice(&(-7.0e10f64).to_bits().to_be_bytes());
    let table = b.len() as u64;
    b.extend_from_slice(&[8, 11, 13]);
    b.extend_from_slice(&[0, 0, 0, 0, 0, 0, 0, 1, 1]);
    b.extend_from_slice(&3u64.to_be_bytes());
    b.extend_from_slice(&0u64.to_be_bytes());
    b.extend_from_slice(&table.to_be_bytes());
    assert!(matches!(read_source(&b), SourceContents::Unparsable));
}

#[test]
fn nested_values_and_numbers_are_pretty_json() {
    let src = read_source(br#"{ "d" = { "n" = "x"; }; }"#);
    match src {
        SourceContents::Entries(es) => {
            assert_eq!(es, vec![("d".to_string(), "{\n  \"n\": \"x\"\n}".to_string())]);
        }
        _ => panic!("expected entries"),
    }
    let xml = r#"<?xml version="1.0" encoding="UTF-8"?>
<plist version="1.0"><dict><key>r</key><real>1.5</real><key>a</key><array><integer>-3</integer></array></dict></plist>"#;
    match read_source(xml.as_bytes()) {
        SourceContents::Entries(es) => {
            assert_eq!(es, vec![
                ("r".to_string(), "1.5".to_string()),
                ("a".to_string(), "[\n  -3\n]".to_string()),
            ]);
        }
        _ => panic!("expected entries"),
    }
}
