//! The codec: encode/decode rules between the configuration aggregates and
//! their keyed wire documents.
//!
//! Encoding a gated tri-state field follows the wire-slot rule of
//! [`crate::setting`]: an explicit value puts the key on the wire, a reset
//! puts the key with an explicit null, and no instruction omits the key.
//! Decoding supplies `NotSet` for an absent gated key and a group's
//! documented defaults for an absent composite key, so read responses with
//! omitted groups decode without error.

use vstd::prelude::*;

use crate::config::{
    FacetingSettings, MinWordSizeForTypos, PaginationSetting, Settings, SettingsModel,
    TypoToleranceModel, TypoToleranceSettings,
};
use crate::setting::Setting;
use crate::wire::{deref_slot, keys_distinct, lemma_lookup_present, lookup, WireDoc, WireValue};

verus! {

/// A present wire value could not be converted to its target type. Surfaced
/// immediately to the reader, never silently defaulted.
#[derive(Debug, Clone, Copy, PartialEq, Eq, Structural)]
pub enum DecodeError {
    /// A required key is absent from the document.
    MissingKey,
    /// A present value has the wrong shape for its key.
    WrongKind,
    /// A present integer does not fit the target width.
    IntOutOfRange,
}

// The wire keys of the pagination and faceting groups.
pub open spec fn key_max_total_hits() -> Seq<char> {
    "maxTotalHits"@
}

pub open spec fn key_max_values_per_facet() -> Seq<char> {
    "maxValuesPerFacet"@
}

// The wire keys of the typo-tolerance group and its nested thresholds.
pub open spec fn key_enabled() -> Seq<char> {
    "enabled"@
}

pub open spec fn key_disable_on_attributes() -> Seq<char> {
    "disableOnAttributes"@
}

pub open spec fn key_disable_on_words() -> Seq<char> {
    "disableOnWords"@
}

pub open spec fn key_min_word_size() -> Seq<char> {
    "minWordSizeForTypos"@
}

pub open spec fn key_one_typo() -> Seq<char> {
    "oneTypo"@
}

pub open spec fn key_two_typos() -> Seq<char> {
    "twoTypos"@
}

/// The wire keys inside each composite group are pairwise distinct.
pub proof fn lemma_group_keys_distinct()
    ensures
        key_one_typo() != key_two_typos(),
        key_enabled() != key_disable_on_attributes(),
        key_enabled() != key_disable_on_words(),
        key_enabled() != key_min_word_size(),
        key_disable_on_attributes() != key_disable_on_words(),
        key_disable_on_attributes() != key_min_word_size(),
        key_disable_on_words() != key_min_word_size(),
{
    reveal_strlit("oneTypo");
    reveal_strlit("twoTypos");
    reveal_strlit("enabled");
    reveal_strlit("disableOnAttributes");
    reveal_strlit("disableOnWords");
    reveal_strlit("minWordSizeForTypos");
    assert(key_one_typo().len() == 7);
    assert(key_two_typos().len() == 8);
    assert(key_enabled().len() == 7);
    assert(key_disable_on_attributes().len() == 19);
    assert(key_disable_on_words().len() == 14);
    assert(key_min_word_size().len() == 19);
    assert(key_disable_on_attributes()[0] == 'd');
    assert(key_min_word_size()[0] == 'm');
}

/// Copy a string list, preserving its contents.
fn clone_string_vec(v: &Vec<String>) -> (r: Vec<String>)
    ensures
        r@ == v@,
{
    let mut r: Vec<String> = Vec::new();
    let n = v.len();
    let mut i: usize = 0;
    while i < n
        invariant
            n == v@.len(),
            0 <= i <= n,
            r@ =~= v@.take(i as int),
        decreases n - i,
    {
        r.push(v[i].clone());
        proof {
            assert(r@ =~= v@.take(i + 1));
        }
        i = i + 1;
    }
    proof {
        assert(v@.take(n as int) =~= v@);
    }
    r
}

/// Copy a synonym map, preserving its contents up to the deep view.
fn clone_synonyms(v: &Vec<(String, Vec<String>)>) -> (r: Vec<(String, Vec<String>)>)
    ensures
        r.deep_view() == v.deep_view(),
{
    let mut r: Vec<(String, Vec<String>)> = Vec::new();
    let n = v.len();
    let mut i: usize = 0;
    while i < n
        invariant
            n == v@.len(),
            0 <= i <= n,
            r@.len() == i,
            forall|j: int| 0 <= j < i ==> #[trigger] r.deep_view()[j] == v.deep_view()[j],
        decreases n - i,
    {
        let ghost prev = r;
        let key = v[i].0.clone();
        let words = clone_string_vec(&v[i].1);
        r.push((key, words));
        proof {
            assert(words.deep_view() =~= v@[i as int].1.deep_view());
            assert forall|j: int| 0 <= j < i + 1 implies #[trigger] r.deep_view()[j]
                == v.deep_view()[j] by {
                if j < i {
                    assert(prev.deep_view()[j] == v.deep_view()[j]);
                    assert(r@[j] == prev@[j]);
                } else {
                    assert(r.deep_view()[j] == v.deep_view()[j]);
                }
            }
        }
        i = i + 1;
    }
    proof {
        assert(r.deep_view() =~= v.deep_view());
    }
    r
}

// ---------------------------------------------------------------------------
// Pagination
// ---------------------------------------------------------------------------

/// What the encoded pagination document holds: exactly the `maxTotalHits`
/// key with the group's integer.
pub open spec fn pagination_encoding(
    entries: Seq<(String, WireValue)>,
    p: PaginationSetting,
) -> bool {
    &&& entries.len() == 1
    &&& entries[0].0@ == key_max_total_hits()
    &&& entries[0].1 == WireValue::Num(p.max_total_hits)
}

/// A pagination document decodes iff its `maxTotalHits` key holds an integer.
pub open spec fn pagination_doc_ok(entries: Seq<(String, WireValue)>) -> bool {
    lookup(entries, key_max_total_hits()) matches Some(WireValue::Num(_))
}

/// The group a well-shaped pagination document decodes to.
pub open spec fn pagination_of_doc(entries: Seq<(String, WireValue)>) -> PaginationSetting
    recommends
        pagination_doc_ok(entries),
{
    PaginationSetting {
        max_total_hits: match lookup(entries, key_max_total_hits()) {
            Some(WireValue::Num(n)) => n,
            _ => 0,
        },
    }
}

/// The error an ill-shaped pagination document reports.
pub open spec fn pagination_doc_err(entries: Seq<(String, WireValue)>) -> DecodeError
    recommends
        !pagination_doc_ok(entries),
{
    if lookup(entries, key_max_total_hits()) is None {
        DecodeError::MissingKey
    } else {
        DecodeError::WrongKind
    }
}

impl PaginationSetting {
    /// Encode this group as its wire document.
    pub fn encode(&self) -> (r: WireDoc)
        ensures
            pagination_encoding(r.entries@, *self),
    {
        let mut doc = WireDoc::new();
        doc.push("maxTotalHits", WireValue::Num(self.max_total_hits));
        doc
    }

    /// Decode a pagination document; the integer key is required, as read
    /// responses always report a resolved value.
    pub fn decode(doc: &WireDoc) -> (r: Result<PaginationSetting, DecodeError>)
        ensures
            r is Ok <==> pagination_doc_ok(doc.entries@),
            r matches Ok(p) ==> p == pagination_of_doc(doc.entries@),
            r matches Err(e) ==> e == pagination_doc_err(doc.entries@),
    {
        match doc.get("maxTotalHits") {
            Some(WireValue::Num(n)) => Ok(PaginationSetting { max_total_hits: *n }),
            Some(_) => Err(DecodeError::WrongKind),
            None => Err(DecodeError::MissingKey),
        }
    }
}

/// Law: a pagination group survives the trip through its wire document.
pub proof fn lemma_pagination_round_trip(entries: Seq<(String, WireValue)>, p: PaginationSetting)
    requires
        pagination_encoding(entries, p),
    ensures
        pagination_doc_ok(entries),
        pagination_of_doc(entries) == p,
{
}

// ---------------------------------------------------------------------------
// Faceting
// ---------------------------------------------------------------------------

/// What the encoded faceting document holds: exactly the
/// `maxValuesPerFacet` key with the group's integer.
pub open spec fn faceting_encoding(
    entries: Seq<(String, WireValue)>,
    f: FacetingSettings,
) -> bool {
    &&& entries.len() == 1
    &&& entries[0].0@ == key_max_values_per_facet()
    &&& entries[0].1 == WireValue::Num(f.max_values_per_facet)
}

/// A faceting document decodes iff its `maxValuesPerFacet` key holds an
/// integer.
pub open spec fn faceting_doc_ok(entries: Seq<(String, WireValue)>) -> bool {
    lookup(entries, key_max_values_per_facet()) matches Some(WireValue::Num(_))
}

/// The group a well-shaped faceting document decodes to.
pub open spec fn faceting_of_doc(entries: Seq<(String, WireValue)>) -> FacetingSettings
    recommends
        faceting_doc_ok(entries),
{
    FacetingSettings {
        max_values_per_facet: match lookup(entries, key_max_values_per_facet()) {
            Some(WireValue::Num(n)) => n,
            _ => 0,
        },
    }
}

/// The error an ill-shaped faceting document reports.
pub open spec fn faceting_doc_err(entries: Seq<(String, WireValue)>) -> DecodeError
    recommends
        !faceting_doc_ok(entries),
{
    if lookup(entries, key_max_values_per_facet()) is None {
        DecodeError::MissingKey
    } else {
        DecodeError::WrongKind
    }
}

impl FacetingSettings {
    /// Encode this group as its wire document.
    pub fn encode(&self) -> (r: WireDoc)
        ensures
            faceting_encoding(r.entries@, *self),
    {
        let mut doc = WireDoc::new();
        doc.push("maxValuesPerFacet", WireValue::Num(self.max_values_per_facet));
        doc
    }

    /// Decode a faceting document; the integer key is required.
    pub fn decode(doc: &WireDoc) -> (r: Result<FacetingSettings, DecodeError>)
        ensures
            r is Ok <==> faceting_doc_ok(doc.entries@),
            r matches Ok(f) ==> f == faceting_of_doc(doc.entries@),
            r matches Err(e) ==> e == faceting_doc_err(doc.entries@),
    {
        match doc.get("maxValuesPerFacet") {
            Some(WireValue::Num(n)) => Ok(FacetingSettings { max_values_per_facet: *n }),
            Some(_) => Err(DecodeError::WrongKind),
            None => Err(DecodeError::MissingKey),
        }
    }
}

/// Law: a faceting group survives the trip through its wire document.
pub proof fn lemma_faceting_round_trip(entries: Seq<(String, WireValue)>, f: FacetingSettings)
    requires
        faceting_encoding(entries, f),
    ensures
        faceting_doc_ok(entries),
        faceting_of_doc(entries) == f,
{
}

// ---------------------------------------------------------------------------
// Minimum word sizes for typos
// ---------------------------------------------------------------------------

/// The wire value of an optional small integer: present iff the integer is.
pub open spec fn opt_u8_wire(o: Option<u8>) -> Option<WireValue> {
    match o {
        Some(v) => Some(WireValue::Num(v as usize)),
        None => None,
    }
}

/// What the encoded thresholds document holds: a key per present threshold
/// and nothing else.
pub open spec fn min_word_size_encoding(
    entries: Seq<(String, WireValue)>,
    m: MinWordSizeForTypos,
) -> bool {
    &&& keys_distinct(entries)
    &&& forall|i: int|
        0 <= i < entries.len() ==> (#[trigger] entries[i].0@ == key_one_typo()
            || entries[i].0@ == key_two_typos())
    &&& lookup(entries, key_one_typo()) == opt_u8_wire(m.one_typo)
    &&& lookup(entries, key_two_typos()) == opt_u8_wire(m.two_typos)
}

/// An optional small-integer slot decodes iff it is absent, null, or an
/// integer that fits.
pub open spec fn u8_slot_ok(o: Option<WireValue>) -> bool {
    match o {
        None => true,
        Some(WireValue::Null) => true,
        Some(WireValue::Num(n)) => n <= 255,
        _ => false,
    }
}

/// The optional small integer a slot decodes to; absent and null both give
/// no value.
pub open spec fn u8_slot_val(o: Option<WireValue>) -> Option<u8> {
    match o {
        Some(WireValue::Num(n)) => Some(n as u8),
        _ => None,
    }
}

/// The error an ill-shaped optional small-integer slot reports.
pub open spec fn u8_slot_err(o: Option<WireValue>) -> DecodeError
    recommends
        !u8_slot_ok(o),
{
    match o {
        Some(WireValue::Num(_)) => DecodeError::IntOutOfRange,
        _ => DecodeError::WrongKind,
    }
}

/// A thresholds document decodes iff both optional slots do.
pub open spec fn min_word_size_doc_ok(entries: Seq<(String, WireValue)>) -> bool {
    u8_slot_ok(lookup(entries, key_one_typo())) && u8_slot_ok(lookup(entries, key_two_typos()))
}

/// The thresholds a well-shaped document decodes to.
pub open spec fn min_word_size_of_doc(entries: Seq<(String, WireValue)>) -> MinWordSizeForTypos
    recommends
        min_word_size_doc_ok(entries),
{
    MinWordSizeForTypos {
        one_typo: u8_slot_val(lookup(entries, key_one_typo())),
        two_typos: u8_slot_val(lookup(entries, key_two_typos())),
    }
}

/// The error an ill-shaped thresholds document reports; the `oneTypo` slot
/// is examined first.
pub open spec fn min_word_size_doc_err(entries: Seq<(String, WireValue)>) -> DecodeError
    recommends
        !min_word_size_doc_ok(entries),
{
    if !u8_slot_ok(lookup(entries, key_one_typo())) {
        u8_slot_err(lookup(entries, key_one_typo()))
    } else {
        u8_slot_err(lookup(entries, key_two_typos()))
    }
}

impl MinWordSizeForTypos {
    /// Encode the thresholds as their wire document, omitting absent ones.
    pub fn encode(&self) -> (r: WireDoc)
        ensures
            min_word_size_encoding(r.entries@, *self),
    {
        proof {
            lemma_group_keys_distinct();
        }
        let mut doc = WireDoc::new();
        if let Some(v) = self.one_typo {
            doc.push("oneTypo", WireValue::Num(v as usize));
        }
        if let Some(v) = self.two_typos {
            doc.push("twoTypos", WireValue::Num(v as usize));
        }
        doc
    }

    /// Decode a thresholds document; either key may be absent, and each
    /// present key must hold an integer small enough for its width.
    pub fn decode(doc: &WireDoc) -> (r: Result<MinWordSizeForTypos, DecodeError>)
        ensures
            r is Ok <==> min_word_size_doc_ok(doc.entries@),
            r matches Ok(m) ==> m == min_word_size_of_doc(doc.entries@),
            r matches Err(e) ==> e == min_word_size_doc_err(doc.entries@),
    {
        let one_typo: Option<u8> = match doc.get("oneTypo") {
            None => None,
            Some(WireValue::Null) => None,
            Some(WireValue::Num(n)) => {
                if *n <= 255 {
                    Some(*n as u8)
                } else {
                    return Err(DecodeError::IntOutOfRange);
                }
            },
            Some(_) => {
                return Err(DecodeError::WrongKind);
            },
        };
        let two_typos: Option<u8> = match doc.get("twoTypos") {
            None => None,
            Some(WireValue::Null) => None,
            Some(WireValue::Num(n)) => {
                if *n <= 255 {
                    Some(*n as u8)
                } else {
                    return Err(DecodeError::IntOutOfRange);
                }
            },
            Some(_) => {
                return Err(DecodeError::WrongKind);
            },
        };
        Ok(MinWordSizeForTypos { one_typo, two_typos })
    }
}

/// Law: the typo thresholds survive the trip through their wire document.
pub proof fn lemma_min_word_size_round_trip(
    entries: Seq<(String, WireValue)>,
    m: MinWordSizeForTypos,
)
    requires
        min_word_size_encoding(entries, m),
    ensures
        min_word_size_doc_ok(entries),
        min_word_size_of_doc(entries) == m,
{
}

// ---------------------------------------------------------------------------
// Typo tolerance
// ---------------------------------------------------------------------------

/// The wire value a gated tri-state boolean occupies: the slot rule of
/// [`crate::setting`], with `None` standing for an omitted key.
pub open spec fn tri_bool_wire(s: Setting<bool>) -> Option<WireValue> {
    match s {
        Setting::SetTo(b) => Some(WireValue::Bool(b)),
        Setting::Reset => Some(WireValue::Null),
        Setting::NotSet => None,
    }
}

/// The keys an encoded typo-tolerance document may carry.
pub open spec fn is_typo_key(k: Seq<char>) -> bool {
    ||| k == key_enabled()
    ||| k == key_disable_on_attributes()
    ||| k == key_disable_on_words()
    ||| k == key_min_word_size()
}

/// What the encoded typo-tolerance document holds: the gated `enabled` slot,
/// both disable lists, the nested thresholds document, and nothing else.
pub open spec fn typo_tolerance_encoding(
    entries: Seq<(String, WireValue)>,
    t: TypoToleranceModel,
) -> bool {
    &&& keys_distinct(entries)
    &&& forall|i: int| 0 <= i < entries.len() ==> is_typo_key(#[trigger] entries[i].0@)
    &&& lookup(entries, key_enabled()) == tri_bool_wire(t.enabled)
    &&& (lookup(entries, key_disable_on_attributes()) matches Some(WireValue::StrArr(a))
        && a.deep_view() == t.disable_on_attributes)
    &&& (lookup(entries, key_disable_on_words()) matches Some(WireValue::StrArr(w))
        && w.deep_view() == t.disable_on_words)
    &&& (lookup(entries, key_min_word_size()) matches Some(WireValue::Obj(d))
        && min_word_size_encoding(d.entries@, t.min_word_size_for_typos))
}

/// A gated boolean slot decodes iff it is absent, null, or a boolean.
pub open spec fn tri_bool_slot_ok(o: Option<WireValue>) -> bool {
    match o {
        None => true,
        Some(WireValue::Null) => true,
        Some(WireValue::Bool(_)) => true,
        _ => false,
    }
}

/// The intent a gated boolean slot decodes to: absent gives `NotSet`, null
/// gives `Reset`, a boolean gives `SetTo`.
pub open spec fn tri_bool_slot_val(o: Option<WireValue>) -> Setting<bool> {
    match o {
        Some(WireValue::Null) => Setting::Reset,
        Some(WireValue::Bool(b)) => Setting::SetTo(b),
        _ => Setting::NotSet,
    }
}

/// A string-list slot decodes iff it is absent or an array of strings; an
/// absent list falls back to the empty list.
pub open spec fn str_arr_slot_ok(o: Option<WireValue>) -> bool {
    match o {
        None => true,
        Some(WireValue::StrArr(_)) => true,
        _ => false,
    }
}

/// The list a string-list slot decodes to.
pub open spec fn str_arr_slot_val(o: Option<WireValue>) -> Seq<Seq<char>> {
    match o {
        Some(WireValue::StrArr(a)) => a.deep_view(),
        _ => Seq::empty(),
    }
}

/// A thresholds slot decodes iff it is absent or a well-shaped thresholds
/// document; an absent slot falls back to the documented defaults.
pub open spec fn min_word_size_slot_ok(o: Option<WireValue>) -> bool {
    match o {
        None => true,
        Some(WireValue::Obj(d)) => min_word_size_doc_ok(d.entries@),
        _ => false,
    }
}

/// The thresholds a thresholds slot decodes to; absence gives the documented
/// service defaults.
pub open spec fn min_word_size_slot_val(o: Option<WireValue>) -> MinWordSizeForTypos {
    match o {
        Some(WireValue::Obj(d)) => min_word_size_of_doc(d.entries@),
        _ => MinWordSizeForTypos { one_typo: Some(5u8), two_typos: Some(9u8) },
    }
}

/// The error an ill-shaped thresholds slot reports.
pub open spec fn min_word_size_slot_err(o: Option<WireValue>) -> DecodeError
    recommends
        !min_word_size_slot_ok(o),
{
    match o {
        Some(WireValue::Obj(d)) => min_word_size_doc_err(d.entries@),
        _ => DecodeError::WrongKind,
    }
}

/// A typo-tolerance document decodes iff each of its four slots does.
pub open spec fn typo_doc_ok(entries: Seq<(String, WireValue)>) -> bool {
    &&& tri_bool_slot_ok(lookup(entries, key_enabled()))
    &&& str_arr_slot_ok(lookup(entries, key_disable_on_attributes()))
    &&& str_arr_slot_ok(lookup(entries, key_disable_on_words()))
    &&& min_word_size_slot_ok(lookup(entries, key_min_word_size()))
}

/// The group a well-shaped typo-tolerance document decodes to.
pub open spec fn typo_of_doc(entries: Seq<(String, WireValue)>) -> TypoToleranceModel
    recommends
        typo_doc_ok(entries),
{
    TypoToleranceModel {
        enabled: tri_bool_slot_val(lookup(entries, key_enabled())),
        disable_on_attributes: str_arr_slot_val(lookup(entries, key_disable_on_attributes())),
        disable_on_words: str_arr_slot_val(lookup(entries, key_disable_on_words())),
        min_word_size_for_typos: min_word_size_slot_val(lookup(entries, key_min_word_size())),
    }
}

/// The error an ill-shaped typo-tolerance document reports; slots are
/// examined in document-field order.
pub open spec fn typo_doc_err(entries: Seq<(String, WireValue)>) -> DecodeError
    recommends
        !typo_doc_ok(entries),
{
    if !tri_bool_slot_ok(lookup(entries, key_enabled())) {
        DecodeError::WrongKind
    } else if !str_arr_slot_ok(lookup(entries, key_disable_on_attributes())) {
        DecodeError::WrongKind
    } else if !str_arr_slot_ok(lookup(entries, key_disable_on_words())) {
        DecodeError::WrongKind
    } else {
        min_word_size_slot_err(lookup(entries, key_min_word_size()))
    }
}

impl TypoToleranceSettings {
    /// Encode this group as its wire document. The gated `enabled` field is
    /// omitted on `NotSet` and emitted as an explicit null on `Reset`; the
    /// other fields are always emitted.
    pub fn encode(&self) -> (r: WireDoc)
        ensures
            typo_tolerance_encoding(r.entries@, self@),
    {
        proof {
            lemma_group_keys_distinct();
        }
        let mut doc = WireDoc::new();
        match &self.enabled {
            Setting::SetTo(b) => doc.push("enabled", WireValue::Bool(*b)),
            Setting::Reset => doc.push("enabled", WireValue::Null),
            Setting::NotSet => {},
        }
        let attrs = clone_string_vec(&self.disable_on_attributes);
        proof {
            assert(attrs.deep_view() =~= self.disable_on_attributes.deep_view());
        }
        doc.push("disableOnAttributes", WireValue::StrArr(attrs));
        let words = clone_string_vec(&self.disable_on_words);
        proof {
            assert(words.deep_view() =~= self.disable_on_words.deep_view());
        }
        doc.push("disableOnWords", WireValue::StrArr(words));
        doc.push("minWordSizeForTypos", WireValue::Obj(self.min_word_size_for_typos.encode()));
        doc
    }

    /// Decode a typo-tolerance document. An absent `enabled` key decodes to
    /// `NotSet`, absent disable lists to empty lists, and absent thresholds
    /// to their documented defaults, so read responses with omitted keys
    /// decode without error.
    pub fn decode(doc: &WireDoc) -> (r: Result<TypoToleranceSettings, DecodeError>)
        ensures
            r is Ok <==> typo_doc_ok(doc.entries@),
            r matches Ok(t) ==> t@ == typo_of_doc(doc.entries@),
            r matches Err(e) ==> e == typo_doc_err(doc.entries@),
    {
        let enabled: Setting<bool> = match doc.get("enabled") {
            None => Setting::NotSet,
            Some(WireValue::Null) => Setting::Reset,
            Some(WireValue::Bool(b)) => Setting::SetTo(*b),
            Some(_) => {
                return Err(DecodeError::WrongKind);
            },
        };
        let disable_on_attributes: Vec<String> = match doc.get("disableOnAttributes") {
            None => Vec::new(),
            Some(WireValue::StrArr(a)) => clone_string_vec(a),
            Some(_) => {
                return Err(DecodeError::WrongKind);
            },
        };
        proof {
            assert(disable_on_attributes.deep_view() =~= str_arr_slot_val(
                lookup(doc.entries@, key_disable_on_attributes()),
            ));
        }
        let disable_on_words: Vec<String> = match doc.get("disableOnWords") {
            None => Vec::new(),
            Some(WireValue::StrArr(a)) => clone_string_vec(a),
            Some(_) => {
                return Err(DecodeError::WrongKind);
            },
        };
        proof {
            assert(disable_on_words.deep_view() =~= str_arr_slot_val(
                lookup(doc.entries@, key_disable_on_words()),
            ));
        }
        let min_word_size_for_typos: MinWordSizeForTypos = match doc.get("minWordSizeForTypos") {
            None => MinWordSizeForTypos { one_typo: Some(5), two_typos: Some(9) },
            Some(WireValue::Obj(d)) => match MinWordSizeForTypos::decode(d) {
                Ok(m) => m,
                Err(e) => {
                    return Err(e);
                },
            },
            Some(_) => {
                return Err(DecodeError::WrongKind);
            },
        };
        Ok(
            TypoToleranceSettings {
                enabled,
                disable_on_attributes,
                disable_on_words,
                min_word_size_for_typos,
            },
        )
    }
}

/// Law: a typo-tolerance group survives the trip through its wire document;
/// in particular every intent of the gated `enabled` field comes back
/// unchanged.
pub proof fn lemma_typo_tolerance_round_trip(
    entries: Seq<(String, WireValue)>,
    t: TypoToleranceModel,
)
    requires
        typo_tolerance_encoding(entries, t),
    ensures
        typo_doc_ok(entries),
        typo_of_doc(entries) == t,
{
    match lookup(entries, key_min_word_size()) {
        Some(WireValue::Obj(d)) => {
            lemma_min_word_size_round_trip(d.entries@, t.min_word_size_for_typos);
        },
        _ => {},
    }
    assert(typo_of_doc(entries) =~= t);
}

/// Law: omission on `NotSet` — an encoded group whose gated field gives no
/// instruction never carries that field's key.
pub proof fn lemma_not_set_key_omitted(entries: Seq<(String, WireValue)>, t: TypoToleranceModel)
    requires
        typo_tolerance_encoding(entries, t),
        t.enabled is NotSet,
    ensures
        lookup(entries, key_enabled()) is None,
{
}

/// Law: reset is distinguishable from omission on the wire — an encoded
/// group whose gated field asks for a reset carries the key with an explicit
/// null, never an omitted key.
pub proof fn lemma_reset_emits_null(entries: Seq<(String, WireValue)>, t: TypoToleranceModel)
    requires
        typo_tolerance_encoding(entries, t),
        t.enabled is Reset,
    ensures
        lookup(entries, key_enabled()) == Some(WireValue::Null),
{
}

/// Law: default on absence — a document lacking the gated key decodes that
/// field to `NotSet`; the absence itself never causes an error.
pub proof fn lemma_absent_key_decodes_not_set(entries: Seq<(String, WireValue)>)
    requires
        lookup(entries, key_enabled()) is None,
    ensures
        tri_bool_slot_ok(lookup(entries, key_enabled())),
        typo_of_doc(entries).enabled is NotSet,
{
}

// ---------------------------------------------------------------------------
// The top-level settings document
// ---------------------------------------------------------------------------

// The aggregate keys of the eleven settings groups.
pub open spec fn key_synonyms() -> Seq<char> {
    "synonyms"@
}

pub open spec fn key_stop_words() -> Seq<char> {
    "stopWords"@
}

pub open spec fn key_ranking_rules() -> Seq<char> {
    "rankingRules"@
}

pub open spec fn key_filterable_attributes() -> Seq<char> {
    "filterableAttributes"@
}

pub open spec fn key_sortable_attributes() -> Seq<char> {
    "sortableAttributes"@
}

pub open spec fn key_distinct_attribute() -> Seq<char> {
    "distinctAttribute"@
}

pub open spec fn key_searchable_attributes() -> Seq<char> {
    "searchableAttributes"@
}

pub open spec fn key_displayed_attributes() -> Seq<char> {
    "displayedAttributes"@
}

pub open spec fn key_pagination() -> Seq<char> {
    "pagination"@
}

pub open spec fn key_faceting() -> Seq<char> {
    "faceting"@
}

pub open spec fn key_typo_tolerance() -> Seq<char> {
    "typoTolerance"@
}

/// The aggregate keys of the eleven settings groups are pairwise distinct.
pub proof fn lemma_settings_keys_distinct()
    ensures
        key_synonyms() != key_stop_words(),
        key_synonyms() != key_ranking_rules(),
        key_synonyms() != key_filterable_attributes(),
        key_synonyms() != key_sortable_attributes(),
        key_synonyms() != key_distinct_attribute(),
        key_synonyms() != key_searchable_attributes(),
        key_synonyms() != key_displayed_attributes(),
        key_synonyms() != key_pagination(),
        key_synonyms() != key_faceting(),
        key_synonyms() != key_typo_tolerance(),
        key_stop_words() != key_ranking_rules(),
        key_stop_words() != key_filterable_attributes(),
        key_stop_words() != key_sortable_attributes(),
        key_stop_words() != key_distinct_attribute(),
        key_stop_words() != key_searchable_attributes(),
        key_stop_words() != key_displayed_attributes(),
        key_stop_words() != key_pagination(),
        key_stop_words() != key_faceting(),
        key_stop_words() != key_typo_tolerance(),
        key_ranking_rules() != key_filterable_attributes(),
        key_ranking_rules() != key_sortable_attributes(),
        key_ranking_rules() != key_distinct_attribute(),
        key_ranking_rules() != key_searchable_attributes(),
        key_ranking_rules() != key_displayed_attributes(),
        key_ranking_rules() != key_pagination(),
        key_ranking_rules() != key_faceting(),
        key_ranking_rules() != key_typo_tolerance(),
        key_filterable_attributes() != key_sortable_attributes(),
        key_filterable_attributes() != key_distinct_attribute(),
        key_filterable_attributes() != key_searchable_attributes(),
        key_filterable_attributes() != key_displayed_attributes(),
        key_filterable_attributes() != key_pagination(),
        key_filterable_attributes() != key_faceting(),
        key_filterable_attributes() != key_typo_tolerance(),
        key_sortable_attributes() != key_distinct_attribute(),
        key_sortable_attributes() != key_searchable_attributes(),
        key_sortable_attributes() != key_displayed_attributes(),
        key_sortable_attributes() != key_pagination(),
        key_sortable_attributes() != key_faceting(),
        key_sortable_attributes() != key_typo_tolerance(),
        key_distinct_attribute() != key_searchable_attributes(),
        key_distinct_attribute() != key_displayed_attributes(),
        key_distinct_attribute() != key_pagination(),
        key_distinct_attribute() != key_faceting(),
        key_distinct_attribute() != key_typo_tolerance(),
        key_searchable_attributes() != key_displayed_attributes(),
        key_searchable_attributes() != key_pagination(),
        key_searchable_attributes() != key_faceting(),
        key_searchable_attributes() != key_typo_tolerance(),
        key_displayed_attributes() != key_pagination(),
        key_displayed_attributes() != key_faceting(),
        key_displayed_attributes() != key_typo_tolerance(),
        key_pagination() != key_faceting(),
        key_pagination() != key_typo_tolerance(),
        key_faceting() != key_typo_tolerance(),
{
    reveal_strlit("synonyms");
    reveal_strlit("stopWords");
    reveal_strlit("rankingRules");
    reveal_strlit("filterableAttributes");
    reveal_strlit("sortableAttributes");
    reveal_strlit("distinctAttribute");
    reveal_strlit("searchableAttributes");
    reveal_strlit("displayedAttributes");
    reveal_strlit("pagination");
    reveal_strlit("faceting");
    reveal_strlit("typoTolerance");
    assert(key_synonyms().len() == 8);
    assert(key_stop_words().len() == 9);
    assert(key_ranking_rules().len() == 12);
    assert(key_filterable_attributes().len() == 20);
    assert(key_sortable_attributes().len() == 18);
    assert(key_distinct_attribute().len() == 17);
    assert(key_searchable_attributes().len() == 20);
    assert(key_displayed_attributes().len() == 19);
    assert(key_pagination().len() == 10);
    assert(key_faceting().len() == 8);
    assert(key_typo_tolerance().len() == 13);
    assert(key_synonyms()[0] == 's');
    assert(key_faceting()[0] == 'f');
    assert(key_filterable_attributes()[0] == 'f');
    assert(key_searchable_attributes()[0] == 's');
}

/// The keys an encoded settings document may carry.
pub open spec fn is_settings_key(k: Seq<char>) -> bool {
    ||| k == key_synonyms()
    ||| k == key_stop_words()
    ||| k == key_ranking_rules()
    ||| k == key_filterable_attributes()
    ||| k == key_sortable_attributes()
    ||| k == key_distinct_attribute()
    ||| k == key_searchable_attributes()
    ||| k == key_displayed_attributes()
    ||| k == key_pagination()
    ||| k == key_faceting()
    ||| k == key_typo_tolerance()
}

/// What the encoded settings document holds: a key per present group, each
/// carrying that group's encoding, and nothing else. An absent group emits
/// no key at all, which is what makes the aggregate a partial update.
pub open spec fn settings_encoding(entries: Seq<(String, WireValue)>, s: SettingsModel) -> bool {
    &&& keys_distinct(entries)
    &&& forall|i: int| 0 <= i < entries.len() ==> is_settings_key(#[trigger] entries[i].0@)
    &&& (lookup(entries, key_synonyms()) is Some <==> s.synonyms is Some)
    &&& (s.synonyms matches Some(m) ==> (lookup(entries, key_synonyms()) matches Some(
        WireValue::StrMap(sm),
    ) && sm.deep_view() == m))
    &&& (lookup(entries, key_stop_words()) is Some <==> s.stop_words is Some)
    &&& (s.stop_words matches Some(w) ==> (lookup(entries, key_stop_words()) matches Some(
        WireValue::StrArr(a),
    ) && a.deep_view() == w))
    &&& (lookup(entries, key_ranking_rules()) is Some <==> s.ranking_rules is Some)
    &&& (s.ranking_rules matches Some(w) ==> (lookup(entries, key_ranking_rules()) matches Some(
        WireValue::StrArr(a),
    ) && a.deep_view() == w))
    &&& (lookup(entries, key_filterable_attributes()) is Some <==> s.filterable_attributes
        is Some)
    &&& (s.filterable_attributes matches Some(w) ==> (lookup(
        entries,
        key_filterable_attributes(),
    ) matches Some(WireValue::StrArr(a)) && a.deep_view() == w))
    &&& (lookup(entries, key_sortable_attributes()) is Some <==> s.sortable_attributes is Some)
    &&& (s.sortable_attributes matches Some(w) ==> (lookup(
        entries,
        key_sortable_attributes(),
    ) matches Some(WireValue::StrArr(a)) && a.deep_view() == w))
    &&& (lookup(entries, key_distinct_attribute()) is Some <==> s.distinct_attribute is Some)
    &&& (s.distinct_attribute matches Some(da) ==> (lookup(
        entries,
        key_distinct_attribute(),
    ) matches Some(WireValue::Str(st)) && st@ == da))
    &&& (lookup(entries, key_searchable_attributes()) is Some <==> s.searchable_attributes
        is Some)
    &&& (s.searchable_attributes matches Some(w) ==> (lookup(
        entries,
        key_searchable_attributes(),
    ) matches Some(WireValue::StrArr(a)) && a.deep_view() == w))
    &&& (lookup(entries, key_displayed_attributes()) is Some <==> s.displayed_attributes
        is Some)
    &&& (s.displayed_attributes matches Some(w) ==> (lookup(
        entries,
        key_displayed_attributes(),
    ) matches Some(WireValue::StrArr(a)) && a.deep_view() == w))
    &&& (lookup(entries, key_pagination()) is Some <==> s.pagination is Some)
    &&& (s.pagination matches Some(p) ==> (lookup(entries, key_pagination()) matches Some(
        WireValue::Obj(d),
    ) && pagination_encoding(d.entries@, p)))
    &&& (lookup(entries, key_faceting()) is Some <==> s.faceting is Some)
    &&& (s.faceting matches Some(f) ==> (lookup(entries, key_faceting()) matches Some(
        WireValue::Obj(d),
    ) && faceting_encoding(d.entries@, f)))
    &&& (lookup(entries, key_typo_tolerance()) is Some <==> s.typo_tolerance is Some)
    &&& (s.typo_tolerance matches Some(t) ==> (lookup(entries, key_typo_tolerance()) matches Some(
        WireValue::Obj(d),
    ) && typo_tolerance_encoding(d.entries@, t)))
}

/// An optional synonym-map slot decodes iff it is absent, null, or a keyed
/// string-array map.
pub open spec fn syn_slot_ok(o: Option<WireValue>) -> bool {
    match o {
        None => true,
        Some(WireValue::Null) => true,
        Some(WireValue::StrMap(_)) => true,
        _ => false,
    }
}

/// The synonym map an optional slot decodes to; absent and null both give no
/// value.
pub open spec fn syn_slot_val(o: Option<WireValue>) -> Option<
    Seq<(Seq<char>, Seq<Seq<char>>)>,
> {
    match o {
        Some(WireValue::StrMap(m)) => Some(m.deep_view()),
        _ => None,
    }
}

/// An optional string-list slot decodes iff it is absent, null, or an array
/// of strings.
pub open spec fn opt_str_arr_slot_ok(o: Option<WireValue>) -> bool {
    match o {
        None => true,
        Some(WireValue::Null) => true,
        Some(WireValue::StrArr(_)) => true,
        _ => false,
    }
}

/// The string list an optional slot decodes to; absent and null both give no
/// value.
pub open spec fn opt_str_arr_slot_val(o: Option<WireValue>) -> Option<Seq<Seq<char>>> {
    match o {
        Some(WireValue::StrArr(a)) => Some(a.deep_view()),
        _ => None,
    }
}

/// An optional string slot decodes iff it is absent, null, or a string.
pub open spec fn opt_str_slot_ok(o: Option<WireValue>) -> bool {
    match o {
        None => true,
        Some(WireValue::Null) => true,
        Some(WireValue::Str(_)) => true,
        _ => false,
    }
}

/// The string an optional slot decodes to; absent and null both give no
/// value.
pub open spec fn opt_str_slot_val(o: Option<WireValue>) -> Option<Seq<char>> {
    match o {
        Some(WireValue::Str(st)) => Some(st@),
        _ => None,
    }
}

/// An optional pagination slot decodes iff it is absent, null, or a
/// well-shaped pagination document.
pub open spec fn pagination_slot_ok(o: Option<WireValue>) -> bool {
    match o {
        None => true,
        Some(WireValue::Null) => true,
        Some(WireValue::Obj(d)) => pagination_doc_ok(d.entries@),
        _ => false,
    }
}

/// The pagination group an optional slot decodes to.
pub open spec fn pagination_slot_val(o: Option<WireValue>) -> Option<PaginationSetting> {
    match o {
        Some(WireValue::Obj(d)) => Some(pagination_of_doc(d.entries@)),
        _ => None,
    }
}

/// The error an ill-shaped optional pagination slot reports.
pub open spec fn pagination_slot_err(o: Option<WireValue>) -> DecodeError
    recommends
        !pagination_slot_ok(o),
{
    match o {
        Some(WireValue::Obj(d)) => pagination_doc_err(d.entries@),
        _ => DecodeError::WrongKind,
    }
}

/// An optional faceting slot decodes iff it is absent, null, or a
/// well-shaped faceting document.
pub open spec fn faceting_slot_ok(o: Option<WireValue>) -> bool {
    match o {
        None => true,
        Some(WireValue::Null) => true,
        Some(WireValue::Obj(d)) => faceting_doc_ok(d.entries@),
        _ => false,
    }
}

/// The faceting group an optional slot decodes to.
pub open spec fn faceting_slot_val(o: Option<WireValue>) -> Option<FacetingSettings> {
    match o {
        Some(WireValue::Obj(d)) => Some(faceting_of_doc(d.entries@)),
        _ => None,
    }
}

/// The error an ill-shaped optional faceting slot reports.
pub open spec fn faceting_slot_err(o: Option<WireValue>) -> DecodeError
    recommends
        !faceting_slot_ok(o),
{
    match o {
        Some(WireValue::Obj(d)) => faceting_doc_err(d.entries@),
        _ => DecodeError::WrongKind,
    }
}

/// An optional typo-tolerance slot decodes iff it is absent, null, or a
/// well-shaped typo-tolerance document.
pub open spec fn typo_slot_ok(o: Option<WireValue>) -> bool {
    match o {
        None => true,
        Some(WireValue::Null) => true,
        Some(WireValue::Obj(d)) => typo_doc_ok(d.entries@),
        _ => false,
    }
}

/// The typo-tolerance group an optional slot decodes to.
pub open spec fn typo_slot_val(o: Option<WireValue>) -> Option<TypoToleranceModel> {
    match o {
        Some(WireValue::Obj(d)) => Some(typo_of_doc(d.entries@)),
        _ => None,
    }
}

/// The error an ill-shaped optional typo-tolerance slot reports.
pub open spec fn typo_slot_err(o: Option<WireValue>) -> DecodeError
    recommends
        !typo_slot_ok(o),
{
    match o {
        Some(WireValue::Obj(d)) => typo_doc_err(d.entries@),
        _ => DecodeError::WrongKind,
    }
}

/// A settings document decodes iff each of its eleven slots does.
pub open spec fn settings_doc_ok(entries: Seq<(String, WireValue)>) -> bool {
    &&& syn_slot_ok(lookup(entries, key_synonyms()))
    &&& opt_str_arr_slot_ok(lookup(entries, key_stop_words()))
    &&& opt_str_arr_slot_ok(lookup(entries, key_ranking_rules()))
    &&& opt_str_arr_slot_ok(lookup(entries, key_filterable_attributes()))
    &&& opt_str_arr_slot_ok(lookup(entries, key_sortable_attributes()))
    &&& opt_str_slot_ok(lookup(entries, key_distinct_attribute()))
    &&& opt_str_arr_slot_ok(lookup(entries, key_searchable_attributes()))
    &&& opt_str_arr_slot_ok(lookup(entries, key_displayed_attributes()))
    &&& pagination_slot_ok(lookup(entries, key_pagination()))
    &&& faceting_slot_ok(lookup(entries, key_faceting()))
    &&& typo_slot_ok(lookup(entries, key_typo_tolerance()))
}

/// The aggregate a well-shaped settings document decodes to; every absent
/// group decodes to "no instruction".
pub open spec fn settings_of_doc(entries: Seq<(String, WireValue)>) -> SettingsModel
    recommends
        settings_doc_ok(entries),
{
    SettingsModel {
        synonyms: syn_slot_val(lookup(entries, key_synonyms())),
        stop_words: opt_str_arr_slot_val(lookup(entries, key_stop_words())),
        ranking_rules: opt_str_arr_slot_val(lookup(entries, key_ranking_rules())),
        filterable_attributes: opt_str_arr_slot_val(
            lookup(entries, key_filterable_attributes()),
        ),
        sortable_attributes: opt_str_arr_slot_val(lookup(entries, key_sortable_attributes())),
        distinct_attribute: opt_str_slot_val(lookup(entries, key_distinct_attribute())),
        searchable_attributes: opt_str_arr_slot_val(
            lookup(entries, key_searchable_attributes()),
        ),
        displayed_attributes: opt_str_arr_slot_val(lookup(entries, key_displayed_attributes())),
        pagination: pagination_slot_val(lookup(entries, key_pagination())),
        faceting: faceting_slot_val(lookup(entries, key_faceting())),
        typo_tolerance: typo_slot_val(lookup(entries, key_typo_tolerance())),
    }
}

/// The error an ill-shaped settings document reports; slots are examined in
/// document-field order.
pub open spec fn settings_doc_err(entries: Seq<(String, WireValue)>) -> DecodeError
    recommends
        !settings_doc_ok(entries),
{
    if !syn_slot_ok(lookup(entries, key_synonyms())) {
        DecodeError::WrongKind
    } else if !opt_str_arr_slot_ok(lookup(entries, key_stop_words())) {
        DecodeError::WrongKind
    } else if !opt_str_arr_slot_ok(lookup(entries, key_ranking_rules())) {
        DecodeError::WrongKind
    } else if !opt_str_arr_slot_ok(lookup(entries, key_filterable_attributes())) {
        DecodeError::WrongKind
    } else if !opt_str_arr_slot_ok(lookup(entries, key_sortable_attributes())) {
        DecodeError::WrongKind
    } else if !opt_str_slot_ok(lookup(entries, key_distinct_attribute())) {
        DecodeError::WrongKind
    } else if !opt_str_arr_slot_ok(lookup(entries, key_searchable_attributes())) {
        DecodeError::WrongKind
    } else if !opt_str_arr_slot_ok(lookup(entries, key_displayed_attributes())) {
        DecodeError::WrongKind
    } else if !pagination_slot_ok(lookup(entries, key_pagination())) {
        pagination_slot_err(lookup(entries, key_pagination()))
    } else if !faceting_slot_ok(lookup(entries, key_faceting())) {
        faceting_slot_err(lookup(entries, key_faceting()))
    } else {
        typo_slot_err(lookup(entries, key_typo_tolerance()))
    }
}

/// Decode one optional synonym-map slot.
fn decode_syn_slot(o: Option<&WireValue>) -> (r: Result<
    Option<Vec<(String, Vec<String>)>>,
    DecodeError,
>)
    ensures
        r is Ok <==> syn_slot_ok(deref_slot(o)),
        r matches Ok(v) ==> v.deep_view() == syn_slot_val(deref_slot(o)),
        r matches Err(e) ==> e == DecodeError::WrongKind,
{
    match o {
        None => Ok(None),
        Some(WireValue::Null) => Ok(None),
        Some(WireValue::StrMap(m)) => Ok(Some(clone_synonyms(m))),
        Some(_) => Err(DecodeError::WrongKind),
    }
}

/// Decode one optional string-list slot.
fn decode_opt_str_arr_slot(o: Option<&WireValue>) -> (r: Result<Option<Vec<String>>, DecodeError>)
    ensures
        r is Ok <==> opt_str_arr_slot_ok(deref_slot(o)),
        r matches Ok(v) ==> v.deep_view() == opt_str_arr_slot_val(deref_slot(o)),
        r matches Err(e) ==> e == DecodeError::WrongKind,
{
    match o {
        None => Ok(None),
        Some(WireValue::Null) => Ok(None),
        Some(WireValue::StrArr(a)) => {
            let c = clone_string_vec(a);
            proof {
                assert(c.deep_view() =~= a.deep_view());
            }
            Ok(Some(c))
        },
        Some(_) => Err(DecodeError::WrongKind),
    }
}

/// Decode one optional string slot.
fn decode_opt_str_slot(o: Option<&WireValue>) -> (r: Result<Option<String>, DecodeError>)
    ensures
        r is Ok <==> opt_str_slot_ok(deref_slot(o)),
        r matches Ok(v) ==> v.deep_view() == opt_str_slot_val(deref_slot(o)),
        r matches Err(e) ==> e == DecodeError::WrongKind,
{
    match o {
        None => Ok(None),
        Some(WireValue::Null) => Ok(None),
        Some(WireValue::Str(st)) => Ok(Some(st.clone())),
        Some(_) => Err(DecodeError::WrongKind),
    }
}

/// Decode one optional pagination slot.
fn decode_pagination_slot(o: Option<&WireValue>) -> (r: Result<
    Option<PaginationSetting>,
    DecodeError,
>)
    ensures
        r is Ok <==> pagination_slot_ok(deref_slot(o)),
        r matches Ok(v) ==> v == pagination_slot_val(deref_slot(o)),
        r matches Err(e) ==> e == pagination_slot_err(deref_slot(o)),
{
    match o {
        None => Ok(None),
        Some(WireValue::Null) => Ok(None),
        Some(WireValue::Obj(d)) => match PaginationSetting::decode(d) {
            Ok(p) => Ok(Some(p)),
            Err(e) => Err(e),
        },
        Some(_) => Err(DecodeError::WrongKind),
    }
}

/// Decode one optional faceting slot.
fn decode_faceting_slot(o: Option<&WireValue>) -> (r: Result<
    Option<FacetingSettings>,
    DecodeError,
>)
    ensures
        r is Ok <==> faceting_slot_ok(deref_slot(o)),
        r matches Ok(v) ==> v == faceting_slot_val(deref_slot(o)),
        r matches Err(e) ==> e == faceting_slot_err(deref_slot(o)),
{
    match o {
        None => Ok(None),
        Some(WireValue::Null) => Ok(None),
        Some(WireValue::Obj(d)) => match FacetingSettings::decode(d) {
            Ok(f) => Ok(Some(f)),
            Err(e) => Err(e),
        },
        Some(_) => Err(DecodeError::WrongKind),
    }
}

/// Decode one optional typo-tolerance slot.
fn decode_typo_slot(o: Option<&WireValue>) -> (r: Result<
    Option<TypoToleranceSettings>,
    DecodeError,
>)
    ensures
        r is Ok <==> typo_slot_ok(deref_slot(o)),
        r matches Ok(v) ==> (match v {
            Some(t) => typo_slot_val(deref_slot(o)) == Some(t@),
            None => typo_slot_val(deref_slot(o)) is None,
        }),
        r matches Err(e) ==> e == typo_slot_err(deref_slot(o)),
{
    match o {
        None => Ok(None),
        Some(WireValue::Null) => Ok(None),
        Some(WireValue::Obj(d)) => match TypoToleranceSettings::decode(d) {
            Ok(t) => Ok(Some(t)),
            Err(e) => Err(e),
        },
        Some(_) => Err(DecodeError::WrongKind),
    }
}

impl Settings {
    /// Encode the aggregate as its wire document: one key per present group,
    /// nothing for an absent group.
    #[verifier::rlimit(80)]
    pub fn encode(&self) -> (r: WireDoc)
        ensures
            settings_encoding(r.entries@, self@),
    {
        proof {
            lemma_settings_keys_distinct();
        }
        let mut doc = WireDoc::new();
        if let Some(m) = &self.synonyms {
            doc.push("synonyms", WireValue::StrMap(clone_synonyms(m)));
        }
        if let Some(w) = &self.stop_words {
            doc.push("stopWords", WireValue::StrArr(clone_string_vec(w)));
        }
        if let Some(w) = &self.ranking_rules {
            doc.push("rankingRules", WireValue::StrArr(clone_string_vec(w)));
        }
        if let Some(w) = &self.filterable_attributes {
            doc.push("filterableAttributes", WireValue::StrArr(clone_string_vec(w)));
        }
        if let Some(w) = &self.sortable_attributes {
            doc.push("sortableAttributes", WireValue::StrArr(clone_string_vec(w)));
        }
        if let Some(da) = &self.distinct_attribute {
            doc.push("distinctAttribute", WireValue::Str(da.clone()));
        }
        if let Some(w) = &self.searchable_attributes {
            doc.push("searchableAttributes", WireValue::StrArr(clone_string_vec(w)));
        }
        if let Some(w) = &self.displayed_attributes {
            doc.push("displayedAttributes", WireValue::StrArr(clone_string_vec(w)));
        }
        if let Some(p) = &self.pagination {
            doc.push("pagination", WireValue::Obj(p.encode()));
        }
        if let Some(f) = &self.faceting {
            doc.push("faceting", WireValue::Obj(f.encode()));
        }
        if let Some(t) = &self.typo_tolerance {
            doc.push("typoTolerance", WireValue::Obj(t.encode()));
        }
        doc
    }

    /// Decode a settings document. Every absent or null group decodes to "no
    /// instruction"; a present group must carry its group's shape.
    #[verifier::rlimit(80)]
    pub fn decode(doc: &WireDoc) -> (r: Result<Settings, DecodeError>)
        ensures
            r is Ok <==> settings_doc_ok(doc.entries@),
            r matches Ok(s) ==> s@ == settings_of_doc(doc.entries@),
            r matches Err(e) ==> e == settings_doc_err(doc.entries@),
    {
        let synonyms = match decode_syn_slot(doc.get("synonyms")) {
            Ok(v) => v,
            Err(e) => {
                return Err(e);
            },
        };
        let stop_words = match decode_opt_str_arr_slot(doc.get("stopWords")) {
            Ok(v) => v,
            Err(e) => {
                return Err(e);
            },
        };
        let ranking_rules = match decode_opt_str_arr_slot(doc.get("rankingRules")) {
            Ok(v) => v,
            Err(e) => {
                return Err(e);
            },
        };
        let filterable_attributes = match decode_opt_str_arr_slot(
            doc.get("filterableAttributes"),
        ) {
            Ok(v) => v,
            Err(e) => {
                return Err(e);
            },
        };
        let sortable_attributes = match decode_opt_str_arr_slot(doc.get("sortableAttributes")) {
            Ok(v) => v,
            Err(e) => {
                return Err(e);
            },
        };
        let distinct_attribute = match decode_opt_str_slot(doc.get("distinctAttribute")) {
            Ok(v) => v,
            Err(e) => {
                return Err(e);
            },
        };
        let searchable_attributes = match decode_opt_str_arr_slot(
            doc.get("searchableAttributes"),
        ) {
            Ok(v) => v,
            Err(e) => {
                return Err(e);
            },
        };
        let displayed_attributes = match decode_opt_str_arr_slot(doc.get("displayedAttributes")) {
            Ok(v) => v,
            Err(e) => {
                return Err(e);
            },
        };
        let pagination = match decode_pagination_slot(doc.get("pagination")) {
            Ok(v) => v,
            Err(e) => {
                return Err(e);
            },
        };
        let faceting = match decode_faceting_slot(doc.get("faceting")) {
            Ok(v) => v,
            Err(e) => {
                return Err(e);
            },
        };
        let typo_tolerance = match decode_typo_slot(doc.get("typoTolerance")) {
            Ok(v) => v,
            Err(e) => {
                return Err(e);
            },
        };
        let s = Settings {
            synonyms,
            stop_words,
            ranking_rules,
            filterable_attributes,
            sortable_attributes,
            distinct_attribute,
            searchable_attributes,
            displayed_attributes,
            pagination,
            faceting,
            typo_tolerance,
        };
        proof {
            assert(s@ =~= settings_of_doc(doc.entries@));
        }
        Ok(s)
    }
}

/// Law: a settings aggregate survives the trip through its wire document:
/// whatever an aggregate encodes to decodes back to the very same aggregate.
pub proof fn lemma_settings_round_trip(entries: Seq<(String, WireValue)>, s: SettingsModel)
    requires
        settings_encoding(entries, s),
    ensures
        settings_doc_ok(entries),
        settings_of_doc(entries) == s,
{
    match lookup(entries, key_pagination()) {
        Some(WireValue::Obj(d)) => {
            if s.pagination is Some {
                lemma_pagination_round_trip(d.entries@, s.pagination->0);
            }
        },
        _ => {},
    }
    match lookup(entries, key_faceting()) {
        Some(WireValue::Obj(d)) => {
            if s.faceting is Some {
                lemma_faceting_round_trip(d.entries@, s.faceting->0);
            }
        },
        _ => {},
    }
    match lookup(entries, key_typo_tolerance()) {
        Some(WireValue::Obj(d)) => {
            if s.typo_tolerance is Some {
                lemma_typo_tolerance_round_trip(d.entries@, s.typo_tolerance->0);
            }
        },
        _ => {},
    }
    assert(settings_of_doc(entries) =~= s);
}

/// Law: the identity aggregate is a no-op on the wire — an aggregate with
/// every group absent encodes to the empty document.
pub proof fn lemma_identity_encodes_empty(entries: Seq<(String, WireValue)>)
    requires
        settings_encoding(entries, SettingsModel::identity()),
    ensures
        entries.len() == 0,
{
    if entries.len() > 0 {
        lemma_lookup_present(entries, 0);
        assert(is_settings_key(entries[0].0@));
        assert(false);
    }
}

} // verus!
