use vstd::prelude::*;

verus! {

/// Where a candidate property came from.
#[derive(Debug, Clone, Copy, PartialEq, Eq, Structural)]
pub enum Source {
    UserIntent,
    AttackCatalog,
    Conformance,
    Tests,
    NatSpec,
    StructuralAnalysis,
}

/// Which verdict tier a property belongs to.
#[derive(Debug, Clone, Copy, PartialEq, Eq, Structural)]
pub enum Tier {
    ZeroConfig,
    Intent,
}

/// Tier of a source: only user intents belong to the intent tier.
pub open spec fn spec_tier_for_source(s: Source) -> Tier {
    match s {
        Source::UserIntent => Tier::Intent,
        _ => Tier::ZeroConfig,
    }
}

pub fn tier_for_source(s: Source) -> (t: Tier)
    ensures
        t == spec_tier_for_source(s),
{
    match s {
        Source::UserIntent => Tier::Intent,
        _ => Tier::ZeroConfig,
    }
}

} // verus!
