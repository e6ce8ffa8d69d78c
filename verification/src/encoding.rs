//! Extended-state and region encoding.
//!
//! A state or a region is a *tagged variant*: a variant family (the
//! enumeration it belongs to), a variant tag, and an optional embedded
//! runtime value, the *extended state*.  Carrying an embedded value lets one
//! declared family serve many concurrently tracked entities: the family
//! "buyer" with an embedded account expresses "this specific buyer",
//! independent of any other buyer's track.
//!
//! Two tagged variants are equal exactly when family, tag and embedded value
//! are all equal, so the encoding preserves tag-plus-payload equality as the
//! store requires of its keys.

use vstd::prelude::*;

verus! {

/// A state or region value: a tagged variant that may carry an embedded
/// runtime value.
#[derive(Clone, Copy, Debug, PartialEq, Eq, Structural)]
pub enum Tagged {
    /// A bare tag: no embedded value.
    Plain { family: u32, tag: u32 },
    /// A tag applied to an embedded runtime value.
    Extended { family: u32, tag: u32, value: u64 },
}

impl Tagged {
    /// The variant family this value belongs to.
    pub open spec fn family(self) -> u32 {
        match self {
            Tagged::Plain { family, .. } => family,
            Tagged::Extended { family, .. } => family,
        }
    }

    /// The variant tag within the family.
    pub open spec fn tag(self) -> u32 {
        match self {
            Tagged::Plain { tag, .. } => tag,
            Tagged::Extended { tag, .. } => tag,
        }
    }

    /// The embedded value, if the variant carries one.
    pub open spec fn value(self) -> Option<u64> {
        match self {
            Tagged::Plain { .. } => None,
            Tagged::Extended { value, .. } => Some(value),
        }
    }

    /// Construct a bare tagged variant.
    pub fn plain(family: u32, tag: u32) -> (r: Self)
        ensures
            r == (Tagged::Plain { family, tag }),
    {
        Tagged::Plain { family, tag }
    }

    /// Construct a tagged variant carrying an embedded value.
    pub fn extended(family: u32, tag: u32, value: u64) -> (r: Self)
        ensures
            r == (Tagged::Extended { family, tag, value }),
    {
        Tagged::Extended { family, tag, value }
    }
}

/// The decoding rule for a declared state or region path, given as family,
/// tag and optional embedded-value expression: with no embedded value the
/// result is the bare tagged variant, otherwise the variant applied to the
/// current runtime value of the expression.
pub open spec fn spec_resolve(family: u32, tag: u32, value: Option<u64>) -> Tagged {
    match value {
        None => Tagged::Plain { family, tag },
        Some(v) => Tagged::Extended { family, tag, value: v },
    }
}

/// Construct the runtime value for a state or region path.
pub fn resolve(family: u32, tag: u32, value: Option<u64>) -> (r: Tagged)
    ensures
        r == spec_resolve(family, tag, value),
{
    match value {
        None => Tagged::Plain { family, tag },
        Some(v) => Tagged::Extended { family, tag, value: v },
    }
}

/// Two tagged variants with the same family and tag but different embedded
/// values are distinct, so regions that differ only in their embedded value
/// are tracked independently.
pub proof fn lemma_extended_values_distinguish(a: Tagged, b: Tagged)
    requires
        a.family() == b.family(),
        a.tag() == b.tag(),
        a.value() != b.value(),
    ensures
        a != b,
{
}

} // verus!
