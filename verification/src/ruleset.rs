use vstd::prelude::*;

verus! {

/// The move-legality authority a game is governed by.
///
/// A structural capability slot: it parameterizes `Game` at the type level,
/// so boards governed by different rule sets cannot be silently substituted
/// for one another, but it contributes no logic yet.
pub trait RuleSet {}

/// A rule-set tag for games whose legality checking is not wired up yet.
pub struct ClassicRules;

impl RuleSet for ClassicRules {

}

} // verus!
