use gis_puller::settings::{
    MatcherSettingsDerive, Settings, SettingsContainer, SettingsDerive, SettingsError,
    SettingsSource, validate_submod,
};

fn matcher(
    catalog: &str,
    rest_url: Option<&str>,
    query: Option<&str>,
    pattern: Option<&str>,
) -> MatcherSettingsDerive {
    MatcherSettingsDerive::new(
        catalog.to_string(),
        rest_url.map(|s| s.to_string()),
        query.map(|s| s.to_string()),
        pattern.map(|s| s.to_string()),
    )
}

fn config(catalog: &str) -> SettingsDerive {
    SettingsDerive::new(matcher(catalog, None, None, None))
}

fn source(
    catalog: Option<&str>,
    rest_url: Option<&str>,
    query: Option<&str>,
    pattern: Option<&str>,
) -> SettingsSource {
    SettingsSource {
        catalog: catalog.map(|s| s.to_string()),
        rest_url: rest_url.map(|s| s.to_string()),
        query: query.map(|s| s.to_string()),
        matcher: pattern.map(|s| s.to_string()),
    }
}

#[test]
fn validate_submod_accepts_two_alphanumeric() {
    assert!(validate_submod("au"));
    assert!(validate_submod("xx"));
    assert!(validate_submod("a1"));
}

#[test]
fn validate_submod_rejects_wrong_shapes() {
    assert!(!validate_submod(""));
    assert!(!validate_submod("a"));
    assert!(!validate_submod("aaa"));
    assert!(!validate_submod(")("));
    assert!(!validate_submod("+++"));
    assert!(!validate_submod("a "));
}

#[test]
fn validate_submod_is_unicode_aware() {
    assert!(validate_submod("é1"));
    assert!(!validate_submod("é"));
}

#[test]
fn upsert_then_handle_round_trips() {
    let mut c = SettingsContainer::new();
    let inserted = config("geoscape");
    assert_eq!(c.upsert("au", config("geoscape")), Ok(true));
    let got = c.handle("au").unwrap();
    assert_eq!(got, inserted);
}

#[test]
fn upsert_valid_regions_succeeds() {
    let mut c = SettingsContainer::new();
    assert_eq!(c.upsert("au", SettingsDerive::new(matcher("c", None, None, None))), Ok(true));
    assert_eq!(c.upsert("xx", SettingsDerive::new(matcher("c", None, None, None))), Ok(true));
}

#[test]
fn upsert_does_not_validate_fields() {
    // Field validation belongs to decoding; upsert stores what it is given.
    let mut c = SettingsContainer::new();
    let odd = matcher("\u{7}", Some(""), Some("\n"), None);
    assert_eq!(c.upsert("au", SettingsDerive::new(odd)), Ok(true));
}

#[test]
fn invalid_region_rejected_before_any_mutation() {
    let mut c = SettingsContainer::new();
    assert_eq!(c.upsert("au", config("kept")), Ok(true));
    for bad in [")(", "aaa", "+++"] {
        assert_eq!(c.upsert(bad, config("ignored")), Err(SettingsError::InvalidRegion));
        assert_eq!(c.handle(bad), Err(SettingsError::InvalidRegion));
    }
    // The registry still holds exactly what was inserted before.
    assert_eq!(c.handle("au").unwrap(), config("kept"));
    assert_eq!(c.handle("xx"), Err(SettingsError::MissingEntry));
}

#[test]
fn handle_before_any_write_is_missing_entry() {
    let c = SettingsContainer::new();
    assert_eq!(c.handle("au"), Err(SettingsError::MissingEntry));
}

#[test]
fn upsert_replaces_without_touching_other_regions() {
    let mut c = SettingsContainer::new();
    assert_eq!(c.upsert("au", config("first")), Ok(true));
    assert_eq!(c.upsert("nz", config("other")), Ok(true));
    assert_eq!(c.upsert("au", config("second")), Ok(true));
    assert_eq!(c.handle("au").unwrap(), config("second"));
    assert_eq!(c.handle("nz").unwrap(), config("other"));
}

#[test]
fn handle_returns_an_independent_copy() {
    let mut c = SettingsContainer::new();
    assert_eq!(c.upsert("au", config("snapshot")), Ok(true));
    let copy = c.handle("au").unwrap();
    drop(copy);
    assert_eq!(c.handle("au").unwrap(), config("snapshot"));
}

#[test]
fn merge_all_requires_the_mode_source() {
    let r = SettingsDerive::merge_all(
        Some(source(Some("c"), None, None, None)),
        None,
        source(None, None, None, None),
    );
    assert_eq!(r, Err(SettingsError::MissingSource));
}

#[test]
fn merge_all_layers_override_key_by_key() {
    let default_layer = source(Some("base"), Some("https://example.test/a"), Some("q0"), None);
    let mode_layer = source(None, None, Some("q1"), None);
    let env_layer = source(None, None, None, Some("\\.zip$"));
    let merged = SettingsDerive::merge_all(Some(default_layer), Some(mode_layer), env_layer)
        .unwrap();
    assert_eq!(merged.fetcher_matcher.catalog, "base");
    assert_eq!(merged.fetcher_matcher.rest_url, Some("https://example.test/a".to_string()));
    assert_eq!(merged.fetcher_matcher.query, Some("q1".to_string()));
    assert_eq!(merged.fetcher_matcher.matcher, Some("\\.zip$".to_string()));
}

#[test]
fn merge_all_without_default_layer_uses_mode_alone() {
    let mode_layer = source(Some("mode"), None, Some("roads"), None);
    let merged =
        SettingsDerive::merge_all(None, Some(mode_layer), source(None, None, None, None)).unwrap();
    assert_eq!(merged.fetcher_matcher.catalog, "mode");
    assert_eq!(merged.fetcher_matcher.query, Some("roads".to_string()));
}

#[test]
fn merge_all_missing_catalog_is_a_decode_error() {
    let r = SettingsDerive::merge_all(
        None,
        Some(source(None, None, Some("q"), None)),
        source(None, None, None, None),
    );
    assert_eq!(r, Err(SettingsError::Decode));
}

#[test]
fn merge_all_empty_catalog_is_a_decode_error() {
    let r = SettingsDerive::merge_all(
        None,
        Some(source(Some(""), None, None, None)),
        source(None, None, None, None),
    );
    assert_eq!(r, Err(SettingsError::Decode));
}

#[test]
fn merge_all_control_character_is_a_decode_error() {
    let r = SettingsDerive::merge_all(
        None,
        Some(source(Some("ok"), None, Some("bad\u{7}"), None)),
        source(None, None, None, None),
    );
    assert_eq!(r, Err(SettingsError::Decode));
}

#[test]
fn load_stores_and_returns_the_merged_settings() {
    let mut c = SettingsContainer::new();
    let loaded = Settings::load(
        &mut c,
        "au",
        Some(source(Some("geoscape"), None, Some("q0"), None)),
        Some(source(None, Some("https://example.test/search"), None, None)),
        source(None, None, Some("q1"), None),
    )
    .unwrap();
    assert_eq!(loaded.fetcher_matcher.catalog, "geoscape");
    assert_eq!(loaded.fetcher_matcher.rest_url, Some("https://example.test/search".to_string()));
    assert_eq!(loaded.fetcher_matcher.query, Some("q1".to_string()));
    assert_eq!(c.handle("au").unwrap(), loaded);
}

#[test]
fn load_with_invalid_region_leaves_registry_unchanged() {
    let mut c = SettingsContainer::new();
    let r = Settings::load(
        &mut c,
        "aaa",
        None,
        Some(source(Some("c"), None, None, None)),
        source(None, None, None, None),
    );
    assert_eq!(r, Err(SettingsError::InvalidRegion));
    assert_eq!(c.handle("au"), Err(SettingsError::MissingEntry));
}

#[test]
fn load_propagates_merge_errors_untouched() {
    let mut c = SettingsContainer::new();
    let r = Settings::load(&mut c, "au", None, None, source(None, None, None, None));
    assert_eq!(r, Err(SettingsError::MissingSource));
    assert_eq!(c.handle("au"), Err(SettingsError::MissingEntry));
}
