use lproj2es::locales::{is_lproj_dir, locale_id, normalize};

#[test]
fn test_locale_id() {
    assert_eq!(locale_id("en.lproj"), "en_US");
    assert_eq!(locale_id("French.lproj"), "fr_FR");
    assert_eq!(locale_id("es_419.lproj"), "es_419");
    assert_eq!(locale_id("unknown.lproj"), "unknown");
}

#[test]
fn test_scan_localized_bundles() {}

#[test]
fn aliases_of_one_locale_normalize_alike() {
    assert_eq!(normalize("en"), "en_US");
    assert_eq!(normalize("English"), "en_US");
    assert_eq!(normalize("en_US"), "en_US");
    assert_eq!(locale_id("English.lproj"), locale_id("en_US.lproj"));
}

#[test]
fn historical_aliases() {
    assert_eq!(normalize("no"), "nb_NO");
    assert_eq!(normalize("sr_RS"), "sr_CS");
    assert_eq!(normalize("zh-Hant"), "zh_TW");
    assert_eq!(normalize("zh-Hans"), "zh_CN");
    assert_eq!(normalize("cmn"), "zh_CN");
    assert_eq!(normalize("Esperanto"), "eo_001");
}

#[test]
fn normalizing_twice_changes_nothing() {
    for name in ["en", "French", "no", "sr_RS", "cmn_TW", "yue", "Klingon", ""] {
        let once = normalize(name);
        assert_eq!(normalize(once), once);
    }
}

#[test]
fn unknown_names_pass_through() {
    assert_eq!(normalize("Base"), "Base");
    assert_eq!(normalize(""), "");
    assert_eq!(locale_id("Base.lproj"), "Base");
    assert_eq!(locale_id("日本語.lproj"), "日本語");
}

#[test]
fn lproj_directory_names() {
    assert!(is_lproj_dir("en.lproj"));
    assert!(is_lproj_dir("a.b.lproj"));
    assert!(!is_lproj_dir(".lproj"));
    assert!(!is_lproj_dir("en.lproj.bak"));
    assert!(!is_lproj_dir("Resources"));
}
