use meili_settings::routes::{
    aggregate_key, endpoint_suffix, expected_status, write_method, Operation, SettingsGroup,
    WriteMethod,
};

const ALL_GROUPS: [SettingsGroup; 11] = [
    SettingsGroup::Synonyms,
    SettingsGroup::StopWords,
    SettingsGroup::RankingRules,
    SettingsGroup::FilterableAttributes,
    SettingsGroup::SortableAttributes,
    SettingsGroup::DistinctAttribute,
    SettingsGroup::SearchableAttributes,
    SettingsGroup::DisplayedAttributes,
    SettingsGroup::Pagination,
    SettingsGroup::Faceting,
    SettingsGroup::TypoTolerance,
];

#[test]
fn aggregate_keys_match_the_documented_table() {
    let expected = [
        "synonyms",
        "stopWords",
        "rankingRules",
        "filterableAttributes",
        "sortableAttributes",
        "distinctAttribute",
        "searchableAttributes",
        "displayedAttributes",
        "pagination",
        "faceting",
        "typoTolerance",
    ];
    for (group, key) in ALL_GROUPS.iter().zip(expected.iter()) {
        assert_eq!(aggregate_key(*group), *key);
    }
}

#[test]
fn endpoint_suffixes_match_the_documented_table() {
    let expected = [
        "/settings/synonyms",
        "/settings/stop-words",
        "/settings/ranking-rules",
        "/settings/filterable-attributes",
        "/settings/sortable-attributes",
        "/settings/distinct-attribute",
        "/settings/searchable-attributes",
        "/settings/displayed-attributes",
        "/settings/pagination",
        "/settings/faceting",
        "/settings/typo-tolerance",
    ];
    for (group, suffix) in ALL_GROUPS.iter().zip(expected.iter()) {
        assert_eq!(endpoint_suffix(*group), *suffix);
    }
}

#[test]
fn composite_groups_are_patched_plain_groups_are_replaced() {
    for group in ALL_GROUPS {
        let composite = matches!(
            group,
            SettingsGroup::Pagination | SettingsGroup::Faceting | SettingsGroup::TypoTolerance
        );
        let expected = if composite { WriteMethod::Patch } else { WriteMethod::Put };
        assert_eq!(write_method(group), expected);
    }
}

#[test]
fn reads_expect_200_and_writes_expect_202() {
    assert_eq!(expected_status(Operation::Read), 200);
    assert_eq!(expected_status(Operation::Replace), 202);
    assert_eq!(expected_status(Operation::Patch), 202);
    assert_eq!(expected_status(Operation::Reset), 202);
}
