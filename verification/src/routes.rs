//! The settings-group protocol: which key, endpoint and methods each
//! independently addressable settings group answers to.

use vstd::prelude::*;

use crate::codec::{
    key_displayed_attributes, key_distinct_attribute, key_faceting, key_filterable_attributes,
    key_pagination, key_ranking_rules, key_searchable_attributes, key_sortable_attributes,
    key_stop_words, key_synonyms, key_typo_tolerance,
};

verus! {

/// One independently addressable settings group of the remote index.
#[derive(Debug, Clone, Copy, PartialEq, Eq, Structural)]
pub enum SettingsGroup {
    Synonyms,
    StopWords,
    RankingRules,
    FilterableAttributes,
    SortableAttributes,
    DistinctAttribute,
    SearchableAttributes,
    DisplayedAttributes,
    Pagination,
    Faceting,
    TypoTolerance,
}

/// The key a group occupies in the aggregate document.
pub open spec fn spec_aggregate_key(g: SettingsGroup) -> Seq<char> {
    match g {
        SettingsGroup::Synonyms => key_synonyms(),
        SettingsGroup::StopWords => key_stop_words(),
        SettingsGroup::RankingRules => key_ranking_rules(),
        SettingsGroup::FilterableAttributes => key_filterable_attributes(),
        SettingsGroup::SortableAttributes => key_sortable_attributes(),
        SettingsGroup::DistinctAttribute => key_distinct_attribute(),
        SettingsGroup::SearchableAttributes => key_searchable_attributes(),
        SettingsGroup::DisplayedAttributes => key_displayed_attributes(),
        SettingsGroup::Pagination => key_pagination(),
        SettingsGroup::Faceting => key_faceting(),
        SettingsGroup::TypoTolerance => key_typo_tolerance(),
    }
}

/// The endpoint path suffix of a group, below an index's route.
pub open spec fn spec_endpoint_suffix(g: SettingsGroup) -> Seq<char> {
    match g {
        SettingsGroup::Synonyms => "/settings/synonyms"@,
        SettingsGroup::StopWords => "/settings/stop-words"@,
        SettingsGroup::RankingRules => "/settings/ranking-rules"@,
        SettingsGroup::FilterableAttributes => "/settings/filterable-attributes"@,
        SettingsGroup::SortableAttributes => "/settings/sortable-attributes"@,
        SettingsGroup::DistinctAttribute => "/settings/distinct-attribute"@,
        SettingsGroup::SearchableAttributes => "/settings/searchable-attributes"@,
        SettingsGroup::DisplayedAttributes => "/settings/displayed-attributes"@,
        SettingsGroup::Pagination => "/settings/pagination"@,
        SettingsGroup::Faceting => "/settings/faceting"@,
        SettingsGroup::TypoTolerance => "/settings/typo-tolerance"@,
    }
}

/// A composite group's write is a partial merge of its present sub-fields;
/// a plain group's write replaces the whole value.
pub open spec fn is_composite(g: SettingsGroup) -> bool {
    match g {
        SettingsGroup::Pagination => true,
        SettingsGroup::Faceting => true,
        SettingsGroup::TypoTolerance => true,
        _ => false,
    }
}

/// The HTTP verb a group's write uses.
#[derive(Debug, Clone, Copy, PartialEq, Eq, Structural)]
pub enum WriteMethod {
    /// Whole-value replacement.
    Put,
    /// Partial merge of the explicitly present sub-fields.
    Patch,
}

/// The operation shapes a settings group answers to.
#[derive(Debug, Clone, Copy, PartialEq, Eq, Structural)]
pub enum Operation {
    /// Fetch the resolved current value.
    Read,
    /// Replace the whole group.
    Replace,
    /// Merge the explicitly present sub-fields of a composite group.
    Patch,
    /// Restore the group to the service default.
    Reset,
}

/// The key a group occupies in the aggregate document.
pub fn aggregate_key(g: SettingsGroup) -> (r: &'static str)
    ensures
        r@ == spec_aggregate_key(g),
{
    match g {
        SettingsGroup::Synonyms => "synonyms",
        SettingsGroup::StopWords => "stopWords",
        SettingsGroup::RankingRules => "rankingRules",
        SettingsGroup::FilterableAttributes => "filterableAttributes",
        SettingsGroup::SortableAttributes => "sortableAttributes",
        SettingsGroup::DistinctAttribute => "distinctAttribute",
        SettingsGroup::SearchableAttributes => "searchableAttributes",
        SettingsGroup::DisplayedAttributes => "displayedAttributes",
        SettingsGroup::Pagination => "pagination",
        SettingsGroup::Faceting => "faceting",
        SettingsGroup::TypoTolerance => "typoTolerance",
    }
}

/// The endpoint path suffix of a group, below an index's route.
pub fn endpoint_suffix(g: SettingsGroup) -> (r: &'static str)
    ensures
        r@ == spec_endpoint_suffix(g),
{
    match g {
        SettingsGroup::Synonyms => "/settings/synonyms",
        SettingsGroup::StopWords => "/settings/stop-words",
        SettingsGroup::RankingRules => "/settings/ranking-rules",
        SettingsGroup::FilterableAttributes => "/settings/filterable-attributes",
        SettingsGroup::SortableAttributes => "/settings/sortable-attributes",
        SettingsGroup::DistinctAttribute => "/settings/distinct-attribute",
        SettingsGroup::SearchableAttributes => "/settings/searchable-attributes",
        SettingsGroup::DisplayedAttributes => "/settings/displayed-attributes",
        SettingsGroup::Pagination => "/settings/pagination",
        SettingsGroup::Faceting => "/settings/faceting",
        SettingsGroup::TypoTolerance => "/settings/typo-tolerance",
    }
}

/// The HTTP verb a group's write uses: composite groups are patched, plain
/// groups are replaced wholesale.
pub fn write_method(g: SettingsGroup) -> (r: WriteMethod)
    ensures
        r is Patch <==> is_composite(g),
{
    match g {
        SettingsGroup::Pagination => WriteMethod::Patch,
        SettingsGroup::Faceting => WriteMethod::Patch,
        SettingsGroup::TypoTolerance => WriteMethod::Patch,
        _ => WriteMethod::Put,
    }
}

/// The success status each operation expects: a read answers immediately
/// with 200; every write is accepted asynchronously with 202 and returns a
/// task handle rather than the applied result.
pub fn expected_status(op: Operation) -> (r: u16)
    ensures
        op is Read ==> r == 200,
        !(op is Read) ==> r == 202,
{
    match op {
        Operation::Read => 200,
        _ => 202,
    }
}

} // verus!
