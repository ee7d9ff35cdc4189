//! Ignition decision: the ordered four-outcome classifier that gates the
//! acceptance of a combined broadcast correction into the running belief.
//!
//! The numeric gate quantities (coherence against its critical value, the
//! free-energy improvement against its threshold) are compared by the
//! caller; the classifier itself is the ordered decision over those
//! comparisons, with the earliest failing gate naming the outcome.

use vstd::prelude::*;

verus! {

/// Terminal outcome of one event's ignition decision.
#[derive(Clone, Copy, Debug, PartialEq, Eq, Structural)]
pub enum IgniteReason {
    /// No message survived the efficiency filter.
    NoSurvivors,
    /// Survivors exist but their mutual coherence is below the critical value.
    CoherenceFail,
    /// Coherent survivors exist but the broadcast's free-energy improvement
    /// falls short of the required margin.
    DeltaGFail,
    /// All gates passed; the broadcast correction is admitted.
    Ignite,
}

/// The ordered decision: the gates are tried in a strict order and the
/// first failing one names the outcome.
pub open spec fn spec_decide(
    survivors_n: int,
    coherence_below_crit: bool,
    d_g_below_delta: bool,
) -> IgniteReason {
    if survivors_n == 0 {
        IgniteReason::NoSurvivors
    } else if coherence_below_crit {
        IgniteReason::CoherenceFail
    } else if d_g_below_delta {
        IgniteReason::DeltaGFail
    } else {
        IgniteReason::Ignite
    }
}

/// Classifies one event's ignition outcome.  `coherence_below_crit` is the
/// comparison `coherence < c_crit`, and `d_g_below_delta` the comparison
/// `delta_g_broadcast < delta`, both taken on the event's computed values.
pub fn decide_ignition(
    survivors_n: usize,
    coherence_below_crit: bool,
    d_g_below_delta: bool,
) -> (r: IgniteReason)
    ensures
        r == spec_decide(survivors_n as int, coherence_below_crit, d_g_below_delta),
{
    if survivors_n == 0 {
        IgniteReason::NoSurvivors
    } else if coherence_below_crit {
        IgniteReason::CoherenceFail
    } else if d_g_below_delta {
        IgniteReason::DeltaGFail
    } else {
        IgniteReason::Ignite
    }
}

impl IgniteReason {
    /// Whether the broadcast correction is admitted: only the `Ignite`
    /// outcome does so.
    pub fn ignited(&self) -> (b: bool)
        ensures
            b == (*self is Ignite),
    {
        match self {
            IgniteReason::Ignite => true,
            _ => false,
        }
    }

    /// The outcome's name as recorded in the output streams.
    pub open spec fn spec_label(self) -> Seq<char> {
        match self {
            IgniteReason::NoSurvivors => "no_survivors"@,
            IgniteReason::CoherenceFail => "coherence_fail"@,
            IgniteReason::DeltaGFail => "deltaG_fail"@,
            IgniteReason::Ignite => "ignite"@,
        }
    }

    /// The outcome's name as recorded in the output streams.
    pub fn label(&self) -> (r: &'static str)
        ensures
            r@ == self.spec_label(),
    {
        match self {
            IgniteReason::NoSurvivors => "no_survivors",
            IgniteReason::CoherenceFail => "coherence_fail",
            IgniteReason::DeltaGFail => "deltaG_fail",
            IgniteReason::Ignite => "ignite",
        }
    }
}

/// Law: with no survivors the outcome is `NoSurvivors`, whatever the later
/// gates would have said.
pub proof fn lemma_no_survivors_wins(coherence_below_crit: bool, d_g_below_delta: bool)
    ensures
        spec_decide(0, coherence_below_crit, d_g_below_delta) == IgniteReason::NoSurvivors,
{
}

/// Law: the coherence gate precedes the free-energy gate.  With survivors
/// present and coherence below its critical value, the outcome is
/// `CoherenceFail` even where the free-energy improvement also falls short.
pub proof fn lemma_coherence_precedes_delta_g(survivors_n: int, d_g_below_delta: bool)
    requires
        survivors_n > 0,
    ensures
        spec_decide(survivors_n, true, d_g_below_delta) == IgniteReason::CoherenceFail,
{
}

/// Law: ignition happens exactly when survivors exist and both gates pass.
pub proof fn lemma_ignite_iff_all_gates_pass(
    survivors_n: int,
    coherence_below_crit: bool,
    d_g_below_delta: bool,
)
    ensures
        (spec_decide(survivors_n, coherence_below_crit, d_g_below_delta) is Ignite) <==> (
        survivors_n != 0 && !coherence_below_crit && !d_g_below_delta),
{
}

} // verus!
