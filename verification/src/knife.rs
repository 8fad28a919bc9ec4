//! The two redundant heater circuits and the choice between them.

use vstd::prelude::*;

verus! {

/// One of the two thermal knives. Exactly one is selected at any time.
#[derive(Clone, Copy, Debug, PartialEq, Eq, Structural)]
pub enum KnifeSelection {
    Primary,
    Secondary,
}

/// The selection that an operator's start preference stands for.
pub open spec fn spec_initial_selection(primary: bool) -> KnifeSelection {
    if primary {
        KnifeSelection::Primary
    } else {
        KnifeSelection::Secondary
    }
}

/// The other circuit.
pub open spec fn spec_fallback(current: KnifeSelection) -> KnifeSelection {
    match current {
        KnifeSelection::Primary => KnifeSelection::Secondary,
        KnifeSelection::Secondary => KnifeSelection::Primary,
    }
}

/// `true` selects the primary knife, `false` the secondary.
pub fn initial_selection(primary: bool) -> (selection: KnifeSelection)
    ensures
        selection == spec_initial_selection(primary),
{
    if primary {
        KnifeSelection::Primary
    } else {
        KnifeSelection::Secondary
    }
}

/// The selection to switch to when the current one has not worked.
pub fn fallback(current: KnifeSelection) -> (next: KnifeSelection)
    ensures
        next == spec_fallback(current),
        next != current,
{
    match current {
        KnifeSelection::Primary => KnifeSelection::Secondary,
        KnifeSelection::Secondary => KnifeSelection::Primary,
    }
}

/// Falling back twice gives the selection one started from, and falling back
/// once never gives it.
pub proof fn lemma_fallback_involution(x: KnifeSelection)
    ensures
        spec_fallback(spec_fallback(x)) == x,
        spec_fallback(x) != x,
{
}

} // verus!
