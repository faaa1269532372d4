//! The tri-state value type: the atomic unit of the partial-update protocol.

use vstd::prelude::*;

verus! {

/// Update intent for one tunable setting.
///
/// `SetTo(v)` asks the service to apply the explicit value `v`, `Reset` asks it
/// to restore its own default, and `NotSet` gives no instruction at all, so
/// the current remote value is left untouched. Exactly one variant is active
/// at a time; `NotSet` is the default for every `T`.
#[derive(Debug, Clone, Copy, PartialEq)]
pub enum Setting<T> {
    SetTo(T),
    Reset,
    NotSet,
}

impl<T> Setting<T> {
    /// The explicit value, if this intent carries one.
    pub fn set(self) -> (r: Option<T>)
        ensures
            r == (match self {
                Setting::SetTo(v) => Some(v),
                _ => None::<T>,
            }),
    {
        match self {
            Setting::SetTo(value) => Some(value),
            _ => None,
        }
    }

    /// The same intent, borrowing the explicit value instead of owning it.
    pub fn as_ref(&self) -> (r: Setting<&T>)
        ensures
            r is SetTo <==> *self is SetTo,
            r is Reset <==> *self is Reset,
            r is NotSet <==> *self is NotSet,
            *self matches Setting::SetTo(v) ==> (r matches Setting::SetTo(rv) && *rv == v),
    {
        match self {
            Setting::SetTo(value) => Setting::SetTo(value),
            Setting::Reset => Setting::Reset,
            Setting::NotSet => Setting::NotSet,
        }
    }

    /// Whether this intent gives no instruction; such a field is omitted
    /// from the encoded document.
    pub fn is_not_set(&self) -> (r: bool)
        ensures
            r == (*self is NotSet),
    {
        matches!(self, Setting::NotSet)
    }

    /// Turn a `Reset` intent into `SetTo(val)`; other intents are unchanged.
    pub fn or_reset(self, val: T) -> (r: Self)
        ensures
            r == (match self {
                Setting::Reset => Setting::SetTo(val),
                otherwise => otherwise,
            }),
    {
        match self {
            Setting::Reset => Setting::SetTo(val),
            otherwise => otherwise,
        }
    }
}

impl<T> Default for Setting<T> {
    /// A fresh setting gives no instruction.
    fn default() -> (r: Self)
        ensures
            r is NotSet,
    {
        Setting::NotSet
    }
}

/// The wire slot a gated tri-state field occupies in a keyed document:
/// the outer option is key presence, the inner option is an explicit null.
///
/// `SetTo(v)` puts the key on the wire with value `v`, `Reset` puts the key on
/// the wire with an explicit null, and `NotSet` omits the key entirely.
pub open spec fn slot_encode<T>(s: Setting<T>) -> Option<Option<T>> {
    match s {
        Setting::SetTo(v) => Some(Some(v)),
        Setting::Reset => Some(None),
        Setting::NotSet => None,
    }
}

/// Reading a wire slot back: an absent key decodes to `NotSet` (never an
/// error), an explicit null to `Reset`, and a value to `SetTo` of that value.
pub open spec fn slot_decode<T>(w: Option<Option<T>>) -> Setting<T> {
    match w {
        None => Setting::NotSet,
        Some(None) => Setting::Reset,
        Some(Some(v)) => Setting::SetTo(v),
    }
}

/// Law: for every `T` the three update intents survive a trip through the
/// wire slot unchanged. In particular `SetTo(x)` decodes back to `SetTo(x)`, and
/// `Reset` comes back as `Reset`, distinguishable from the omitted `NotSet`.
pub proof fn lemma_slot_round_trip<T>(s: Setting<T>)
    ensures
        slot_decode(slot_encode(s)) == s,
{
}

/// Law: the wire slot codec is injective; two distinct intents are never
/// conflated on the wire. This is exactly what the explicit-null encoding of
/// `Reset` buys over a plain optional.
pub proof fn lemma_slot_encode_injective<T>(s1: Setting<T>, s2: Setting<T>)
    requires
        slot_encode(s1) == slot_encode(s2),
    ensures
        s1 == s2,
{
    lemma_slot_round_trip(s1);
    lemma_slot_round_trip(s2);
}

} // verus!
