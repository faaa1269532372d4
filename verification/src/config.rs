//! The configuration aggregates: sparse, immutable value types describing a
//! desired delta against the remote index, built with pure `with_*` mutators.

use vstd::prelude::*;

use crate::setting::Setting;

verus! {

/// Pagination settings group. The default is resolved server-side.
#[derive(Debug, Clone, Copy, PartialEq, Eq, Structural)]
pub struct PaginationSetting {
    pub max_total_hits: usize,
}

impl Default for PaginationSetting {
    fn default() -> (r: Self)
        ensures
            r.max_total_hits == 0,
    {
        PaginationSetting { max_total_hits: 0 }
    }
}

/// Faceting settings group.
#[derive(Debug, Clone, Copy, PartialEq, Eq, Structural)]
pub struct FacetingSettings {
    pub max_values_per_facet: usize,
}

impl Default for FacetingSettings {
    fn default() -> (r: Self)
        ensures
            r.max_values_per_facet == 0,
    {
        FacetingSettings { max_values_per_facet: 0 }
    }
}

/// Word-length thresholds below which typos are not tolerated. The service
/// enforces `one_typo <= two_typos`; no local invariant is checked.
#[derive(Debug, Clone, Copy, PartialEq, Eq, Structural)]
pub struct MinWordSizeForTypos {
    pub one_typo: Option<u8>,
    pub two_typos: Option<u8>,
}

impl Default for MinWordSizeForTypos {
    /// The documented service defaults: one typo from five letters, two from
    /// nine.
    fn default() -> (r: Self)
        ensures
            r == (MinWordSizeForTypos { one_typo: Some(5u8), two_typos: Some(9u8) }),
    {
        MinWordSizeForTypos { one_typo: Some(5), two_typos: Some(9) }
    }
}

/// Typo-tolerance settings group: the one aggregate carrying a true
/// tri-state field, since "enabled" has a meaningful reset-to-default
/// distinct from both `true` and `false`.
#[derive(Debug, Clone, PartialEq)]
pub struct TypoToleranceSettings {
    pub enabled: Setting<bool>,
    pub disable_on_attributes: Vec<String>,
    pub disable_on_words: Vec<String>,
    pub min_word_size_for_typos: MinWordSizeForTypos,
}

/// Mathematical model of a [`TypoToleranceSettings`] value.
#[verifier::ext_equal]
pub ghost struct TypoToleranceModel {
    pub enabled: Setting<bool>,
    pub disable_on_attributes: Seq<Seq<char>>,
    pub disable_on_words: Seq<Seq<char>>,
    pub min_word_size_for_typos: MinWordSizeForTypos,
}

impl View for TypoToleranceSettings {
    type V = TypoToleranceModel;

    open spec fn view(&self) -> TypoToleranceModel {
        TypoToleranceModel {
            enabled: self.enabled,
            disable_on_attributes: self.disable_on_attributes.deep_view(),
            disable_on_words: self.disable_on_words.deep_view(),
            min_word_size_for_typos: self.min_word_size_for_typos,
        }
    }
}

impl TypoToleranceModel {
    /// The group's documented service defaults.
    pub open spec fn service_default() -> TypoToleranceModel {
        TypoToleranceModel {
            enabled: Setting::SetTo(true),
            disable_on_attributes: Seq::empty(),
            disable_on_words: Seq::empty(),
            min_word_size_for_typos: MinWordSizeForTypos {
                one_typo: Some(5u8),
                two_typos: Some(9u8),
            },
        }
    }
}

impl TypoToleranceSettings {
    /// The group's documented service defaults.
    pub fn new() -> (r: TypoToleranceSettings)
        ensures
            r@ == TypoToleranceModel::service_default(),
    {
        TypoToleranceSettings {
            enabled: Setting::SetTo(true),
            disable_on_attributes: Vec::new(),
            disable_on_words: Vec::new(),
            min_word_size_for_typos: MinWordSizeForTypos { one_typo: Some(5), two_typos: Some(9) },
        }
    }

    /// A copy with `enabled` set explicitly; every other field is unchanged.
    pub fn with_enabled(self, enabled: bool) -> (r: TypoToleranceSettings)
        ensures
            r@ == (TypoToleranceModel { enabled: Setting::SetTo(enabled), ..self@ }),
    {
        TypoToleranceSettings { enabled: Setting::SetTo(enabled), ..self }
    }

    /// A copy with the attribute list on which typo tolerance is disabled
    /// replaced wholesale; every other field is unchanged.
    pub fn with_disable_on_attributes(self, disable_on_attributes: Vec<String>) -> (r:
        TypoToleranceSettings)
        ensures
            r@ == (TypoToleranceModel {
                disable_on_attributes: disable_on_attributes.deep_view(),
                ..self@
            }),
    {
        TypoToleranceSettings { disable_on_attributes, ..self }
    }

    /// A copy with the word list on which typo tolerance is disabled replaced
    /// wholesale; every other field is unchanged.
    pub fn with_disable_on_words(self, disable_on_words: Vec<String>) -> (r:
        TypoToleranceSettings)
        ensures
            r@ == (TypoToleranceModel { disable_on_words: disable_on_words.deep_view(), ..self@ }),
    {
        TypoToleranceSettings { disable_on_words, ..self }
    }

    /// A copy with the typo word-length thresholds replaced; every other
    /// field is unchanged.
    pub fn with_min_word_size_for_typos(self, min_word_size_for_typos: MinWordSizeForTypos) -> (r:
        TypoToleranceSettings)
        ensures
            r@ == (TypoToleranceModel { min_word_size_for_typos, ..self@ }),
    {
        TypoToleranceSettings { min_word_size_for_typos, ..self }
    }
}

impl Default for TypoToleranceSettings {
    fn default() -> (r: Self)
        ensures
            r@ == TypoToleranceModel::service_default(),
    {
        TypoToleranceSettings::new()
    }
}

/// The top-level sparse settings document. Every field is optional: a present
/// field asks the service to replace that group wholesale, an absent field
/// leaves the group untouched.
#[derive(Debug, Clone)]
pub struct Settings {
    /// Associated words treated similarly, as a keyed list of synonym groups.
    pub synonyms: Option<Vec<(String, Vec<String>)>>,
    /// Words ignored when present in search queries.
    pub stop_words: Option<Vec<String>>,
    /// Ranking rules, sorted by order of importance.
    pub ranking_rules: Option<Vec<String>>,
    /// Attributes usable for filtering and faceted search.
    pub filterable_attributes: Option<Vec<String>>,
    /// Attributes usable for sorting.
    pub sortable_attributes: Option<Vec<String>>,
    /// Attribute whose distinct values deduplicate search results.
    pub distinct_attribute: Option<String>,
    /// Attributes searched for query words, by order of importance.
    pub searchable_attributes: Option<Vec<String>>,
    /// Attributes shown in returned documents.
    pub displayed_attributes: Option<Vec<String>>,
    /// Pagination settings group.
    pub pagination: Option<PaginationSetting>,
    /// Faceting settings group.
    pub faceting: Option<FacetingSettings>,
    /// Typo-tolerance settings group.
    pub typo_tolerance: Option<TypoToleranceSettings>,
}

/// Mathematical model of a [`Settings`] value.
#[verifier::ext_equal]
pub ghost struct SettingsModel {
    pub synonyms: Option<Seq<(Seq<char>, Seq<Seq<char>>)>>,
    pub stop_words: Option<Seq<Seq<char>>>,
    pub ranking_rules: Option<Seq<Seq<char>>>,
    pub filterable_attributes: Option<Seq<Seq<char>>>,
    pub sortable_attributes: Option<Seq<Seq<char>>>,
    pub distinct_attribute: Option<Seq<char>>,
    pub searchable_attributes: Option<Seq<Seq<char>>>,
    pub displayed_attributes: Option<Seq<Seq<char>>>,
    pub pagination: Option<PaginationSetting>,
    pub faceting: Option<FacetingSettings>,
    pub typo_tolerance: Option<TypoToleranceModel>,
}

impl View for Settings {
    type V = SettingsModel;

    open spec fn view(&self) -> SettingsModel {
        SettingsModel {
            synonyms: self.synonyms.deep_view(),
            stop_words: self.stop_words.deep_view(),
            ranking_rules: self.ranking_rules.deep_view(),
            filterable_attributes: self.filterable_attributes.deep_view(),
            sortable_attributes: self.sortable_attributes.deep_view(),
            distinct_attribute: self.distinct_attribute.deep_view(),
            searchable_attributes: self.searchable_attributes.deep_view(),
            displayed_attributes: self.displayed_attributes.deep_view(),
            pagination: self.pagination,
            faceting: self.faceting,
            typo_tolerance: match self.typo_tolerance {
                Some(t) => Some(t@),
                None => None,
            },
        }
    }
}

impl SettingsModel {
    /// The identity aggregate: every field absent, a no-op when dispatched.
    pub open spec fn identity() -> SettingsModel {
        SettingsModel {
            synonyms: None,
            stop_words: None,
            ranking_rules: None,
            filterable_attributes: None,
            sortable_attributes: None,
            distinct_attribute: None,
            searchable_attributes: None,
            displayed_attributes: None,
            pagination: None,
            faceting: None,
            typo_tolerance: None,
        }
    }
}

impl Settings {
    /// The identity aggregate: no instruction for any group.
    pub fn new() -> (r: Settings)
        ensures
            r@ == SettingsModel::identity(),
    {
        Settings {
            synonyms: None,
            stop_words: None,
            ranking_rules: None,
            filterable_attributes: None,
            sortable_attributes: None,
            distinct_attribute: None,
            searchable_attributes: None,
            displayed_attributes: None,
            pagination: None,
            faceting: None,
            typo_tolerance: None,
        }
    }

    /// A copy with the synonym map replaced wholesale; every other group is
    /// unchanged.
    pub fn with_synonyms(self, synonyms: Vec<(String, Vec<String>)>) -> (r: Settings)
        ensures
            r@ == (SettingsModel { synonyms: Some(synonyms.deep_view()), ..self@ }),
    {
        Settings { synonyms: Some(synonyms), ..self }
    }

    /// A copy with the stop-word list replaced wholesale; every other group
    /// is unchanged.
    pub fn with_stop_words(self, stop_words: Vec<String>) -> (r: Settings)
        ensures
            r@ == (SettingsModel { stop_words: Some(stop_words.deep_view()), ..self@ }),
    {
        Settings { stop_words: Some(stop_words), ..self }
    }

    /// A copy with the pagination group replaced; every other group is
    /// unchanged.
    pub fn with_pagination(self, pagination_settings: PaginationSetting) -> (r: Settings)
        ensures
            r@ == (SettingsModel { pagination: Some(pagination_settings), ..self@ }),
    {
        Settings { pagination: Some(pagination_settings), ..self }
    }

    /// A copy with the typo-tolerance group replaced; every other group is
    /// unchanged.
    pub fn with_typo_tolerance(self, typo_tolerance_settings: TypoToleranceSettings) -> (r:
        Settings)
        ensures
            r@ == (SettingsModel { typo_tolerance: Some(typo_tolerance_settings@), ..self@ }),
    {
        Settings { typo_tolerance: Some(typo_tolerance_settings), ..self }
    }

    /// A copy with the ranking-rule list replaced wholesale; every other
    /// group is unchanged.
    pub fn with_ranking_rules(self, ranking_rules: Vec<String>) -> (r: Settings)
        ensures
            r@ == (SettingsModel { ranking_rules: Some(ranking_rules.deep_view()), ..self@ }),
    {
        Settings { ranking_rules: Some(ranking_rules), ..self }
    }

    /// A copy with the filterable-attribute list replaced wholesale; every
    /// other group is unchanged.
    pub fn with_filterable_attributes(self, filterable_attributes: Vec<String>) -> (r: Settings)
        ensures
            r@ == (SettingsModel {
                filterable_attributes: Some(filterable_attributes.deep_view()),
                ..self@
            }),
    {
        Settings { filterable_attributes: Some(filterable_attributes), ..self }
    }

    /// A copy with the sortable-attribute list replaced wholesale; every
    /// other group is unchanged.
    pub fn with_sortable_attributes(self, sortable_attributes: Vec<String>) -> (r: Settings)
        ensures
            r@ == (SettingsModel {
                sortable_attributes: Some(sortable_attributes.deep_view()),
                ..self@
            }),
    {
        Settings { sortable_attributes: Some(sortable_attributes), ..self }
    }

    /// A copy with the distinct attribute replaced; every other group is
    /// unchanged.
    pub fn with_distinct_attribute(self, distinct_attribute: String) -> (r: Settings)
        ensures
            r@ == (SettingsModel {
                distinct_attribute: Some(distinct_attribute@),
                ..self@
            }),
    {
        Settings { distinct_attribute: Some(distinct_attribute), ..self }
    }

    /// A copy with the searchable-attribute list replaced wholesale; every
    /// other group is unchanged.
    pub fn with_searchable_attributes(self, searchable_attributes: Vec<String>) -> (r: Settings)
        ensures
            r@ == (SettingsModel {
                searchable_attributes: Some(searchable_attributes.deep_view()),
                ..self@
            }),
    {
        Settings { searchable_attributes: Some(searchable_attributes), ..self }
    }

    /// A copy with the displayed-attribute list replaced wholesale; every
    /// other group is unchanged.
    pub fn with_displayed_attributes(self, displayed_attributes: Vec<String>) -> (r: Settings)
        ensures
            r@ == (SettingsModel {
                displayed_attributes: Some(displayed_attributes.deep_view()),
                ..self@
            }),
    {
        Settings { displayed_attributes: Some(displayed_attributes), ..self }
    }

    /// A copy with the faceting group replaced; every other group is
    /// unchanged.
    pub fn with_faceting(self, faceting: &FacetingSettings) -> (r: Settings)
        ensures
            r@ == (SettingsModel { faceting: Some(*faceting), ..self@ }),
    {
        Settings { faceting: Some(*faceting), ..self }
    }
}

impl Default for Settings {
    fn default() -> (r: Self)
        ensures
            r@ == SettingsModel::identity(),
    {
        Settings::new()
    }
}

} // verus!
