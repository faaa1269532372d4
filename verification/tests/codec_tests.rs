use meili_settings::codec::DecodeError;
use meili_settings::config::{
    FacetingSettings, MinWordSizeForTypos, PaginationSetting, Settings, TypoToleranceSettings,
};
use meili_settings::setting::Setting;
use meili_settings::wire::{WireDoc, WireValue};

fn strings(words: &[&str]) -> Vec<String> {
    words.iter().map(|w| w.to_string()).collect()
}

/// Round trip of an explicit value: `SetTo(x)` encodes to the key with `x`
/// and decodes back to `SetTo(x)`.
#[test]
fn tri_state_set_round_trips() {
    for value in [true, false] {
        let t = TypoToleranceSettings::new().with_enabled(value);
        let doc = t.encode();
        let back = TypoToleranceSettings::decode(&doc).unwrap();
        assert_eq!(back.enabled, Setting::SetTo(value));
    }
}

/// Round trip of a reset on the write path: `Reset` encodes to an explicit
/// null and decodes back to `Reset`.
#[test]
fn tri_state_reset_round_trips() {
    let t = TypoToleranceSettings {
        enabled: Setting::Reset,
        ..TypoToleranceSettings::new()
    };
    let doc = t.encode();
    let back = TypoToleranceSettings::decode(&doc).unwrap();
    assert_eq!(back.enabled, Setting::<bool>::Reset);
}

/// Round trip of no instruction: `NotSet` omits the key and decodes back to
/// `NotSet`.
#[test]
fn tri_state_not_set_round_trips() {
    let t = TypoToleranceSettings {
        enabled: Setting::NotSet,
        ..TypoToleranceSettings::new()
    };
    let doc = t.encode();
    let back = TypoToleranceSettings::decode(&doc).unwrap();
    assert_eq!(back.enabled, Setting::<bool>::NotSet);
}

/// Omission on NotSet: a gated field giving no instruction never emits its
/// key.
#[test]
fn not_set_key_is_omitted() {
    let t = TypoToleranceSettings {
        enabled: Setting::NotSet,
        ..TypoToleranceSettings::new()
    };
    let doc = t.encode();
    assert!(doc.get("enabled").is_none());
    assert_eq!(doc.len(), 3);
}

/// Reset is distinguishable from NotSet on the wire: an explicit null, never
/// an omitted key.
#[test]
fn reset_emits_explicit_null() {
    let t = TypoToleranceSettings {
        enabled: Setting::Reset,
        ..TypoToleranceSettings::new()
    };
    let doc = t.encode();
    assert!(matches!(doc.get("enabled"), Some(WireValue::Null)));
}

/// Default on absence: a document missing the gated key decodes it to
/// `NotSet`, not an error.
#[test]
fn absent_key_decodes_to_not_set() {
    let doc = WireDoc::new();
    let back = TypoToleranceSettings::decode(&doc).unwrap();
    assert_eq!(back.enabled, Setting::<bool>::NotSet);
}

/// Identity aggregate is a no-op: a freshly built aggregate encodes to the
/// empty document.
#[test]
fn identity_aggregate_encodes_empty() {
    let doc = Settings::new().encode();
    assert_eq!(doc.len(), 0);
}

/// An aggregate holding stop-words and pagination encodes exactly those two
/// keys and nothing else.
#[test]
fn stop_words_and_pagination_document() {
    let settings = Settings::new()
        .with_stop_words(strings(&["a", "the", "of"]))
        .with_pagination(PaginationSetting { max_total_hits: 100 });
    let doc = settings.encode();
    assert_eq!(doc.len(), 2);
    match doc.get("stopWords") {
        Some(WireValue::StrArr(words)) => assert_eq!(words, &strings(&["a", "the", "of"])),
        other => panic!("unexpected stopWords value: {other:?}"),
    }
    match doc.get("pagination") {
        Some(WireValue::Obj(inner)) => {
            assert_eq!(inner.len(), 1);
            assert!(matches!(inner.get("maxTotalHits"), Some(WireValue::Num(100))));
        }
        other => panic!("unexpected pagination value: {other:?}"),
    }
    assert!(doc.get("synonyms").is_none());
    assert!(doc.get("rankingRules").is_none());
    assert!(doc.get("typoTolerance").is_none());
}

/// A typo-tolerance group with a reset on `enabled` encodes the documented
/// document shape and decodes back to a reset.
#[test]
fn reset_enabled_document_shape() {
    let t = TypoToleranceSettings {
        enabled: Setting::Reset,
        ..TypoToleranceSettings::new()
    };
    let doc = t.encode();
    assert_eq!(doc.len(), 4);
    assert!(matches!(doc.get("enabled"), Some(WireValue::Null)));
    match doc.get("disableOnAttributes") {
        Some(WireValue::StrArr(a)) => assert!(a.is_empty()),
        other => panic!("unexpected disableOnAttributes value: {other:?}"),
    }
    match doc.get("disableOnWords") {
        Some(WireValue::StrArr(a)) => assert!(a.is_empty()),
        other => panic!("unexpected disableOnWords value: {other:?}"),
    }
    match doc.get("minWordSizeForTypos") {
        Some(WireValue::Obj(inner)) => {
            assert!(matches!(inner.get("oneTypo"), Some(WireValue::Num(5))));
            assert!(matches!(inner.get("twoTypos"), Some(WireValue::Num(9))));
        }
        other => panic!("unexpected minWordSizeForTypos value: {other:?}"),
    }
    let back = TypoToleranceSettings::decode(&doc).unwrap();
    assert_eq!(back.enabled, Setting::<bool>::Reset);
}

/// A read response lacking the thresholds key falls back to the documented
/// defaults of five and nine letters.
#[test]
fn absent_thresholds_fall_back_to_defaults() {
    let mut doc = WireDoc::new();
    doc.push("enabled", WireValue::Bool(true));
    let back = TypoToleranceSettings::decode(&doc).unwrap();
    assert_eq!(
        back.min_word_size_for_typos,
        MinWordSizeForTypos { one_typo: Some(5), two_typos: Some(9) }
    );
}

/// The read response the service documents after a pagination reset decodes
/// to the documented server default.
#[test]
fn pagination_reset_read_response_decodes() {
    let mut doc = WireDoc::new();
    doc.push("maxTotalHits", WireValue::Num(1000));
    let back = PaginationSetting::decode(&doc).unwrap();
    assert_eq!(back, PaginationSetting { max_total_hits: 1000 });
}

/// A full aggregate survives the round trip through its wire document.
#[test]
fn full_aggregate_round_trips() {
    let synonyms = vec![
        ("wolverine".to_string(), strings(&["xmen", "logan"])),
        ("logan".to_string(), strings(&["wolverine"])),
    ];
    let typo = TypoToleranceSettings::new()
        .with_enabled(false)
        .with_disable_on_attributes(strings(&["title"]))
        .with_disable_on_words(strings(&["shazam"]))
        .with_min_word_size_for_typos(MinWordSizeForTypos {
            one_typo: Some(4),
            two_typos: None,
        });
    let settings = Settings::new()
        .with_synonyms(synonyms.clone())
        .with_stop_words(strings(&["the"]))
        .with_ranking_rules(strings(&["words", "typo"]))
        .with_filterable_attributes(strings(&["genre"]))
        .with_sortable_attributes(strings(&["release_date"]))
        .with_distinct_attribute("product_id".to_string())
        .with_searchable_attributes(strings(&["title", "overview"]))
        .with_displayed_attributes(strings(&["title"]))
        .with_pagination(PaginationSetting { max_total_hits: 50 })
        .with_faceting(&FacetingSettings { max_values_per_facet: 99 })
        .with_typo_tolerance(typo.clone());
    let doc = settings.encode();
    assert_eq!(doc.len(), 11);
    let back = Settings::decode(&doc).unwrap();
    assert_eq!(back.synonyms, Some(synonyms));
    assert_eq!(back.stop_words, Some(strings(&["the"])));
    assert_eq!(back.ranking_rules, Some(strings(&["words", "typo"])));
    assert_eq!(back.filterable_attributes, Some(strings(&["genre"])));
    assert_eq!(back.sortable_attributes, Some(strings(&["release_date"])));
    assert_eq!(back.distinct_attribute, Some("product_id".to_string()));
    assert_eq!(back.searchable_attributes, Some(strings(&["title", "overview"])));
    assert_eq!(back.displayed_attributes, Some(strings(&["title"])));
    assert_eq!(back.pagination, Some(PaginationSetting { max_total_hits: 50 }));
    assert_eq!(back.faceting, Some(FacetingSettings { max_values_per_facet: 99 }));
    assert_eq!(back.typo_tolerance, Some(typo));
}

/// An empty document decodes to the identity aggregate: every group absent.
#[test]
fn empty_document_decodes_to_identity() {
    let back = Settings::decode(&WireDoc::new()).unwrap();
    assert!(back.synonyms.is_none());
    assert!(back.stop_words.is_none());
    assert!(back.ranking_rules.is_none());
    assert!(back.filterable_attributes.is_none());
    assert!(back.sortable_attributes.is_none());
    assert!(back.distinct_attribute.is_none());
    assert!(back.searchable_attributes.is_none());
    assert!(back.displayed_attributes.is_none());
    assert!(back.pagination.is_none());
    assert!(back.faceting.is_none());
    assert!(back.typo_tolerance.is_none());
}

/// A value of the wrong shape under a known key is an error, never silently
/// defaulted.
#[test]
fn wrong_shape_is_an_error() {
    let mut doc = WireDoc::new();
    doc.push("stopWords", WireValue::Bool(true));
    assert!(matches!(Settings::decode(&doc), Err(DecodeError::WrongKind)));

    let mut doc = WireDoc::new();
    doc.push("enabled", WireValue::Str("yes".to_string()));
    assert_eq!(TypoToleranceSettings::decode(&doc), Err(DecodeError::WrongKind));
}

/// A pagination read response must carry its integer key.
#[test]
fn missing_required_key_is_an_error() {
    assert_eq!(PaginationSetting::decode(&WireDoc::new()), Err(DecodeError::MissingKey));
    assert_eq!(FacetingSettings::decode(&WireDoc::new()), Err(DecodeError::MissingKey));
}

/// A threshold too large for its width is an error.
#[test]
fn oversized_threshold_is_an_error() {
    let mut inner = WireDoc::new();
    inner.push("oneTypo", WireValue::Num(300));
    assert_eq!(MinWordSizeForTypos::decode(&inner), Err(DecodeError::IntOutOfRange));

    let mut doc = WireDoc::new();
    doc.push("minWordSizeForTypos", WireValue::Obj(inner));
    assert_eq!(TypoToleranceSettings::decode(&doc), Err(DecodeError::IntOutOfRange));
}

/// Absent thresholds are omitted from the encoded thresholds document.
#[test]
fn absent_thresholds_are_omitted() {
    let m = MinWordSizeForTypos { one_typo: None, two_typos: Some(9) };
    let doc = m.encode();
    assert_eq!(doc.len(), 1);
    assert!(doc.get("oneTypo").is_none());
    assert!(matches!(doc.get("twoTypos"), Some(WireValue::Num(9))));
    let back = MinWordSizeForTypos::decode(&doc).unwrap();
    assert_eq!(back, m);
}

/// The largest representable count survives the round trip.
#[test]
fn largest_count_round_trips() {
    let p = PaginationSetting { max_total_hits: usize::MAX };
    let back = PaginationSetting::decode(&p.encode()).unwrap();
    assert_eq!(back, p);

    let f = FacetingSettings { max_values_per_facet: usize::MAX };
    let back = FacetingSettings::decode(&f.encode()).unwrap();
    assert_eq!(back, f);
}

/// A null under an optional top-level group decodes to "no instruction".
#[test]
fn null_group_decodes_to_absent() {
    let mut doc = WireDoc::new();
    doc.push("stopWords", WireValue::Null);
    let back = Settings::decode(&doc).unwrap();
    assert!(back.stop_words.is_none());
}
