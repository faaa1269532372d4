use meili_settings::config::{
    FacetingSettings, MinWordSizeForTypos, PaginationSetting, Settings, TypoToleranceSettings,
};
use meili_settings::setting::Setting;

fn strings(words: &[&str]) -> Vec<String> {
    words.iter().map(|w| w.to_string()).collect()
}

#[test]
fn new_settings_has_every_group_absent() {
    let s = Settings::new();
    assert!(s.synonyms.is_none());
    assert!(s.stop_words.is_none());
    assert!(s.ranking_rules.is_none());
    assert!(s.filterable_attributes.is_none());
    assert!(s.sortable_attributes.is_none());
    assert!(s.distinct_attribute.is_none());
    assert!(s.searchable_attributes.is_none());
    assert!(s.displayed_attributes.is_none());
    assert!(s.pagination.is_none());
    assert!(s.faceting.is_none());
    assert!(s.typo_tolerance.is_none());
}

#[test]
fn each_mutator_replaces_exactly_one_group() {
    let s = Settings::new().with_stop_words(strings(&["a"]));
    assert_eq!(s.stop_words, Some(strings(&["a"])));
    assert!(s.synonyms.is_none());
    assert!(s.pagination.is_none());

    let s = s.with_distinct_attribute("id".to_string());
    assert_eq!(s.distinct_attribute, Some("id".to_string()));
    assert_eq!(s.stop_words, Some(strings(&["a"])));

    let s = s.with_faceting(&FacetingSettings { max_values_per_facet: 7 });
    assert_eq!(s.faceting, Some(FacetingSettings { max_values_per_facet: 7 }));
    assert_eq!(s.distinct_attribute, Some("id".to_string()));
}

#[test]
fn same_group_resolves_last_write_wins() {
    let s = Settings::new()
        .with_stop_words(strings(&["a"]))
        .with_stop_words(strings(&["b", "c"]));
    assert_eq!(s.stop_words, Some(strings(&["b", "c"])));
}

#[test]
fn disjoint_mutators_commute() {
    let one = Settings::new()
        .with_stop_words(strings(&["a"]))
        .with_pagination(PaginationSetting { max_total_hits: 3 });
    let other = Settings::new()
        .with_pagination(PaginationSetting { max_total_hits: 3 })
        .with_stop_words(strings(&["a"]));
    assert_eq!(one.stop_words, other.stop_words);
    assert_eq!(one.pagination, other.pagination);
    assert_eq!(one.synonyms, other.synonyms);
}

#[test]
fn synonyms_mutator_keeps_entries() {
    let synonyms = vec![
        ("wow".to_string(), strings(&["world of warcraft"])),
        ("logan".to_string(), strings(&["wolverine", "xmen"])),
    ];
    let s = Settings::new().with_synonyms(synonyms.clone());
    assert_eq!(s.synonyms, Some(synonyms));
}

#[test]
fn typo_tolerance_builder_starts_from_service_defaults() {
    let t = TypoToleranceSettings::new();
    assert_eq!(t.enabled, Setting::SetTo(true));
    assert!(t.disable_on_attributes.is_empty());
    assert!(t.disable_on_words.is_empty());
    assert_eq!(
        t.min_word_size_for_typos,
        MinWordSizeForTypos { one_typo: Some(5), two_typos: Some(9) }
    );
}

#[test]
fn typo_tolerance_mutators_replace_one_field() {
    let t = TypoToleranceSettings::new()
        .with_enabled(false)
        .with_disable_on_attributes(strings(&["title"]))
        .with_disable_on_words(strings(&["kansas"]))
        .with_min_word_size_for_typos(MinWordSizeForTypos { one_typo: Some(3), two_typos: Some(7) });
    assert_eq!(t.enabled, Setting::SetTo(false));
    assert_eq!(t.disable_on_attributes, strings(&["title"]));
    assert_eq!(t.disable_on_words, strings(&["kansas"]));
    assert_eq!(
        t.min_word_size_for_typos,
        MinWordSizeForTypos { one_typo: Some(3), two_typos: Some(7) }
    );
}

#[test]
fn defaults_match_the_documented_values() {
    assert_eq!(PaginationSetting::default(), PaginationSetting { max_total_hits: 0 });
    assert_eq!(FacetingSettings::default(), FacetingSettings { max_values_per_facet: 0 });
    assert_eq!(
        MinWordSizeForTypos::default(),
        MinWordSizeForTypos { one_typo: Some(5), two_typos: Some(9) }
    );
    assert_eq!(TypoToleranceSettings::default(), TypoToleranceSettings::new());
    let d = Settings::default();
    assert!(d.synonyms.is_none());
    assert!(d.typo_tolerance.is_none());
}

#[test]
fn setting_accessors_follow_the_three_states() {
    let set: Setting<u32> = Setting::SetTo(4);
    let reset: Setting<u32> = Setting::Reset;
    let not_set: Setting<u32> = Setting::NotSet;

    assert_eq!(set.set(), Some(4));
    assert_eq!(reset.set(), None);
    assert_eq!(not_set.set(), None);

    assert_eq!(set.as_ref(), Setting::SetTo(&4));
    assert_eq!(reset.as_ref(), Setting::<&u32>::Reset);
    assert_eq!(not_set.as_ref(), Setting::<&u32>::NotSet);

    assert!(!set.is_not_set());
    assert!(!reset.is_not_set());
    assert!(not_set.is_not_set());

    assert_eq!(set.or_reset(9), Setting::SetTo(4));
    assert_eq!(reset.or_reset(9), Setting::SetTo(9));
    assert_eq!(not_set.or_reset(9), Setting::NotSet);

    assert_eq!(Setting::<u32>::default(), Setting::NotSet);
}
