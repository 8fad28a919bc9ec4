//! What holds of every step and of every run of the sequencer, whatever the
//! hardware reports.

use vstd::prelude::*;
use crate::knife::spec_fallback;
use crate::sequencer::{Phase, SequencerConfig, SequencerState};

verus! {

/// How often the knife is switched in the course of a row of actions.
pub open spec fn switch_count(state: SequencerState, outcomes: Seq<bool>) -> nat
    decreases outcomes.len(),
{
    if outcomes.len() == 0 {
        0
    } else {
        let here: nat = if state.phase == Phase::Resetting && state.switch_due() {
            1
        } else {
            0
        };
        here + switch_count(state.next(outcomes[0]), outcomes.drop_first())
    }
}

/// A step leads from a state that a run can be in to another such state. The
/// configuration and the knife the run started on never change.
pub proof fn lemma_step_keeps_wf(state: SequencerState, outcome: bool)
    requires
        state.wf(),
    ensures
        state.next(outcome).wf(),
        state.next(outcome).config == state.config,
        state.next(outcome).initial == state.initial,
{
}

/// The state in which a run starts is one that a run can be in.
pub proof fn lemma_start_is_wf(config: SequencerConfig, primary: bool)
    ensures
        SequencerState::start(config, primary).wf(),
        SequencerState::start(config, primary).steps_left() == 6 * config.max_attempts + 8,
{
}

/// The attempt count grows by exactly one with each cycle that ends, changes
/// at no other step, and never passes the limit.
pub proof fn lemma_attempt_grows_by_one(state: SequencerState, outcome: bool)
    requires
        state.wf(),
    ensures
        state.phase == Phase::Cooldown ==> state.next(outcome).attempt == state.attempt + 1,
        state.phase != Phase::Cooldown ==> state.next(outcome).attempt == state.attempt,
        state.next(outcome).attempt <= state.config.max_attempts,
{
}

/// Every step of a run that is not over brings it closer to its end.
pub proof fn lemma_step_comes_closer(state: SequencerState, outcome: bool)
    requires
        state.wf(),
        !state.is_final(),
    ensures
        0 <= state.next(outcome).steps_left() < state.steps_left(),
{
}

/// A run that is over stays as it is.
pub proof fn lemma_final_stays(state: SequencerState, outcomes: Seq<bool>)
    requires
        state.is_final(),
    ensures
        state.run(outcomes) == state,
    decreases outcomes.len(),
{
    if outcomes.len() > 0 {
        lemma_final_stays(state, outcomes.drop_first());
    }
}

/// A run stays among the states that a run can be in.
pub proof fn lemma_run_keeps_wf(state: SequencerState, outcomes: Seq<bool>)
    requires
        state.wf(),
    ensures
        state.run(outcomes).wf(),
        state.run(outcomes).config == state.config,
        state.run(outcomes).initial == state.initial,
        state.run(outcomes).attempt >= state.attempt,
    decreases outcomes.len(),
{
    if outcomes.len() > 0 {
        lemma_run_keeps_wf(state.next(outcomes[0]), outcomes.drop_first());
    }
}

/// No run goes on for ever: whatever the probes and commands report, a run
/// is over after as many actions as `steps_left` says, which from the start
/// is eight and six for each attempt allowed.
pub proof fn lemma_run_ends(state: SequencerState, outcomes: Seq<bool>)
    requires
        state.wf(),
        outcomes.len() >= state.steps_left(),
    ensures
        state.run(outcomes).is_final(),
    decreases outcomes.len(),
{
    if state.is_final() {
        lemma_final_stays(state, outcomes);
    } else {
        lemma_step_comes_closer(state, outcomes[0]);
        lemma_run_ends(state.next(outcomes[0]), outcomes.drop_first());
    }
}

/// A run in which no probe ever reports deployment ends with every attempt
/// spent, and not before.
pub proof fn lemma_run_without_deployment_exhausts(state: SequencerState, outcomes: Seq<bool>)
    requires
        state.wf(),
        state.phase != Phase::Deployed,
        outcomes.len() >= state.steps_left(),
        forall|i: int| 0 <= i < outcomes.len() ==> !outcomes[i],
    ensures
        state.run(outcomes).phase == Phase::RetriesExhausted,
        state.run(outcomes).attempt == state.config.max_attempts,
    decreases outcomes.len(),
{
    if state.is_final() {
        lemma_final_stays(state, outcomes);
    } else {
        lemma_step_comes_closer(state, outcomes[0]);
        lemma_run_without_deployment_exhausts(state.next(outcomes[0]), outcomes.drop_first());
    }
}

/// The knife is switched in the cycle whose number, counted from one, first
/// lies above the threshold, that is after as many failed cycles as the
/// threshold says, and in no other. The selection changes at that step and at
/// no other.
pub proof fn lemma_switch_at_threshold(state: SequencerState, outcome: bool)
    requires
        state.wf(),
    ensures
        state.next(outcome).phase == Phase::SwitchingKnife <==> state.phase == Phase::Resetting
            && state.attempt == state.config.fallback_threshold,
        state.next(outcome).phase == Phase::SwitchingKnife ==> state.cycle_number()
            == state.config.fallback_threshold + 1,
        state.next(outcome).selection != state.selection <==> state.next(outcome).phase
            == Phase::SwitchingKnife,
        state.next(outcome).phase == Phase::SwitchingKnife ==> state.next(outcome).selection
            == spec_fallback(state.initial),
{
}

/// Once a run has left the knife it started on, it stays on the other one.
pub proof fn lemma_switched_stays(state: SequencerState, outcomes: Seq<bool>)
    requires
        state.switched(),
    ensures
        state.run(outcomes).selection == state.selection,
        state.run(outcomes).initial == state.initial,
        switch_count(state, outcomes) == 0,
    decreases outcomes.len(),
{
    if outcomes.len() > 0 {
        lemma_switched_stays(state.next(outcomes[0]), outcomes.drop_first());
    }
}

/// In the course of any run the knife is switched at most once: once if the
/// run has left the knife it started on, and else not at all.
pub proof fn lemma_switch_at_most_once(state: SequencerState, outcomes: Seq<bool>)
    requires
        !state.switched(),
    ensures
        switch_count(state, outcomes) == (if state.run(outcomes).switched() {
            1nat
        } else {
            0nat
        }),
        state.run(outcomes).initial == state.initial,
    decreases outcomes.len(),
{
    if outcomes.len() > 0 {
        let next = state.next(outcomes[0]);
        if next.switched() {
            lemma_switched_stays(next, outcomes.drop_first());
        } else {
            lemma_switch_at_most_once(next, outcomes.drop_first());
        }
    }
}

/// What a command or a delay reports changes nothing: but for a probe, the
/// next state is the same whether the action succeeded or failed.
pub proof fn lemma_only_probes_decide(state: SequencerState)
    requires
        state.phase != Phase::Probing,
    ensures
        state.next(true) == state.next(false),
{
}

/// Two runs whose outcomes agree wherever a probe was due go through the same
/// states: no failure of a command keeps a run from its next state.
pub proof fn lemma_runs_agree_up_to_commands(
    state: SequencerState,
    left: Seq<bool>,
    right: Seq<bool>,
)
    requires
        left.len() == right.len(),
        forall|i: int|
            0 <= i < left.len() && (#[trigger] state.run(left.take(i))).phase == Phase::Probing
                ==> left[i] == right[i],
    ensures
        state.run(left) == state.run(right),
    decreases left.len(),
{
    if left.len() > 0 {
        assert(left.take(0) =~= Seq::<bool>::empty());
        assert(state.run(left.take(0)) == state);
        let next = state.next(left[0]);
        if state.phase != Phase::Probing {
            lemma_only_probes_decide(state);
        }
        assert(next == state.next(right[0]));
        assert forall|i: int|
            0 <= i < left.drop_first().len() && (#[trigger] next.run(
                left.drop_first().take(i),
            )).phase == Phase::Probing implies left.drop_first()[i] == right.drop_first()[i] by {
            assert(left.take(i + 1).drop_first() =~= left.drop_first().take(i));
            assert(left.take(i + 1)[0] == left[0]);
            assert(state.run(left.take(i + 1)) == next.run(left.drop_first().take(i)));
        }
        lemma_runs_agree_up_to_commands(next, left.drop_first(), right.drop_first());
    }
}

} // verus!
