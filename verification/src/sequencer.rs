//! The deployment sequence as a state machine: from a state and the outcome
//! of the action last handed out to the next state and the next action.

use vstd::prelude::*;
use crate::command::Request;
use crate::knife::{fallback, initial_selection, spec_fallback, spec_initial_selection, KnifeSelection};

verus! {

/// The limits and delays of one run.
#[derive(Clone, Copy, Debug, PartialEq, Eq, Structural)]
pub struct SequencerConfig {
    /// How many reset, arm and deploy cycles a run may spend.
    pub max_attempts: u64,
    /// The number of failed cycles after which the other knife is tried: the
    /// switch falls in the first cycle whose number, counted from one, lies
    /// above it.
    pub fallback_threshold: u64,
    /// Seconds to wait after the first heater selection, before the first probe.
    pub warmup_secs: u64,
    /// Seconds to wait after each deploy command.
    pub cooldown_secs: u64,
    /// Seconds to wait for the reply to one request.
    pub query_timeout_secs: u64,
}

/// Where a run stands. Each phase but the last two names what is to be done
/// next.
#[derive(Clone, Copy, Debug, PartialEq, Eq, Structural)]
pub enum Phase {
    /// Nothing was done yet; the first heater selection is due.
    Idle,
    /// The warm-up delay is due.
    AwaitingWarmup,
    /// A status probe is due.
    Probing,
    /// A reset is due.
    Resetting,
    /// The selection has just changed and the heater selection is due.
    SwitchingKnife,
    /// The arm command is due.
    Arming,
    /// The deploy command is due.
    Deploying,
    /// The delay between attempts is due.
    Cooldown,
    /// A probe reported full deployment. Final.
    Deployed,
    /// Every attempt was spent without such a report. Final.
    RetriesExhausted,
}

/// How a run ended.
#[derive(Clone, Copy, Debug, PartialEq, Eq, Structural)]
pub enum Outcome {
    Deployed,
    RetriesExhausted,
}

/// What the caller is to do before it reports back.
#[derive(Clone, Copy, Debug, PartialEq, Eq, Structural)]
pub enum Action {
    /// Send the request and wait for its reply, no longer than the query timeout.
    Send(Request),
    /// Wait for so many seconds.
    Wait(u64),
    /// Stop: the run is over.
    Finish(Outcome),
}

/// All that a run remembers.
#[derive(Clone, Copy, Debug, PartialEq, Eq, Structural)]
pub struct SequencerState {
    pub config: SequencerConfig,
    pub phase: Phase,
    /// The number of cycles completed so far.
    pub attempt: u64,
    /// The knife selected now.
    pub selection: KnifeSelection,
    /// The knife the run started on.
    pub initial: KnifeSelection,
}

/// The deployment sequencer. It owns the retry count and the knife selection.
pub struct Sequencer {
    state: SequencerState,
}

impl SequencerState {
    /// Whether the run is over.
    pub open spec fn is_final(self) -> bool {
        self.phase == Phase::Deployed || self.phase == Phase::RetriesExhausted
    }

    /// Whether the phase lies in a cycle, after its probe.
    pub open spec fn in_cycle(self) -> bool {
        self.phase == Phase::Resetting || self.phase == Phase::SwitchingKnife || self.phase
            == Phase::Arming || self.phase == Phase::Deploying || self.phase == Phase::Cooldown
    }

    /// Whether the phase lies in a cycle, after the point at which the knife
    /// may be switched.
    pub open spec fn past_switch_point(self) -> bool {
        self.phase == Phase::SwitchingKnife || self.phase == Phase::Arming || self.phase
            == Phase::Deploying || self.phase == Phase::Cooldown
    }

    /// Whether the run has left the knife it started on.
    pub open spec fn switched(self) -> bool {
        self.selection != self.initial
    }

    /// The states that a run can be in: the attempt count stays within the
    /// limit, a cycle is under way only while attempts are left, and the knife
    /// has been switched exactly if the count has reached the threshold at a
    /// switch point.
    pub open spec fn wf(self) -> bool {
        &&& self.attempt <= self.config.max_attempts
        &&& self.in_cycle() ==> self.attempt < self.config.max_attempts
        &&& self.phase == Phase::RetriesExhausted ==> self.attempt == self.config.max_attempts
        &&& (self.phase == Phase::Idle || self.phase == Phase::AwaitingWarmup) ==> self.attempt
            == 0 && !self.switched()
        &&& self.past_switch_point() ==> (self.switched() <==> self.attempt
            >= self.config.fallback_threshold)
        &&& !self.past_switch_point() ==> (self.switched() <==> self.attempt
            > self.config.fallback_threshold)
    }

    /// The state in which a run starts.
    pub open spec fn start(config: SequencerConfig, primary: bool) -> SequencerState {
        SequencerState {
            config,
            phase: Phase::Idle,
            attempt: 0,
            selection: spec_initial_selection(primary),
            initial: spec_initial_selection(primary),
        }
    }

    /// What is to be done in this state.
    pub open spec fn action(self) -> Action {
        match self.phase {
            Phase::Idle => Action::Send(Request::SelectHeater(self.selection)),
            Phase::AwaitingWarmup => Action::Wait(self.config.warmup_secs),
            Phase::Probing => Action::Send(Request::Status),
            Phase::Resetting => Action::Send(Request::Reset),
            Phase::SwitchingKnife => Action::Send(Request::SelectHeater(self.selection)),
            Phase::Arming => Action::Send(Request::Arm),
            Phase::Deploying => Action::Send(Request::Deploy),
            Phase::Cooldown => Action::Wait(self.config.cooldown_secs),
            Phase::Deployed => Action::Finish(Outcome::Deployed),
            Phase::RetriesExhausted => Action::Finish(Outcome::RetriesExhausted),
        }
    }

    /// The number of the cycle that is under way or comes next, counted from
    /// one.
    pub open spec fn cycle_number(self) -> int {
        self.attempt + 1
    }

    /// Whether the knife is to be switched after the reset of this cycle: the
    /// cycle's number lies above the threshold, that is, as many cycles as the
    /// threshold says have failed, and the run is still on the knife it
    /// started on.
    pub open spec fn switch_due(self) -> bool {
        self.cycle_number() > self.config.fallback_threshold && !self.switched()
    }

    /// The state after the action of this state was performed. `outcome` is
    /// what the action reported: for a probe, whether the antennas are
    /// deployed; for a command, whether it was carried out; for a delay,
    /// nothing. Only a probe's outcome is looked at.
    pub open spec fn next(self, outcome: bool) -> SequencerState {
        match self.phase {
            Phase::Idle => SequencerState { phase: Phase::AwaitingWarmup, ..self },
            Phase::AwaitingWarmup => SequencerState { phase: Phase::Probing, ..self },
            Phase::Probing => if outcome {
                SequencerState { phase: Phase::Deployed, ..self }
            } else if self.attempt == self.config.max_attempts {
                SequencerState { phase: Phase::RetriesExhausted, ..self }
            } else {
                SequencerState { phase: Phase::Resetting, ..self }
            },
            Phase::Resetting => if self.switch_due() {
                SequencerState {
                    phase: Phase::SwitchingKnife,
                    selection: spec_fallback(self.selection),
                    ..self
                }
            } else {
                SequencerState { phase: Phase::Arming, ..self }
            },
            Phase::SwitchingKnife => SequencerState { phase: Phase::Arming, ..self },
            Phase::Arming => SequencerState { phase: Phase::Deploying, ..self },
            Phase::Deploying => SequencerState { phase: Phase::Cooldown, ..self },
            Phase::Cooldown => SequencerState {
                phase: Phase::Probing,
                attempt: (self.attempt + 1) as u64,
                ..self
            },
            Phase::Deployed => self,
            Phase::RetriesExhausted => self,
        }
    }

    /// The state after a row of actions, each with its outcome.
    pub open spec fn run(self, outcomes: Seq<bool>) -> SequencerState
        decreases outcomes.len(),
    {
        if outcomes.len() == 0 {
            self
        } else {
            self.next(outcomes[0]).run(outcomes.drop_first())
        }
    }

    /// A bound on the number of actions that are left before the run is over.
    pub open spec fn steps_left(self) -> int {
        let cycles = 6 * (self.config.max_attempts - self.attempt);
        match self.phase {
            Phase::Idle => cycles + 8,
            Phase::AwaitingWarmup => cycles + 7,
            Phase::Probing => cycles + 6,
            Phase::Resetting => cycles + 5,
            Phase::SwitchingKnife => cycles + 4,
            Phase::Arming => cycles + 3,
            Phase::Deploying => cycles + 2,
            Phase::Cooldown => cycles + 1,
            Phase::Deployed => 0,
            Phase::RetriesExhausted => 0,
        }
    }
}

impl Default for SequencerConfig {
    /// Six attempts, the other knife after the third, half an hour of warm-up,
    /// a minute between attempts, half a minute for each reply.
    fn default() -> (config: SequencerConfig)
        ensures
            config == (SequencerConfig {
                max_attempts: 6,
                fallback_threshold: 3,
                warmup_secs: 1800,
                cooldown_secs: 60,
                query_timeout_secs: 30,
            }),
    {
        SequencerConfig {
            max_attempts: 6,
            fallback_threshold: 3,
            warmup_secs: 1800,
            cooldown_secs: 60,
            query_timeout_secs: 30,
        }
    }
}

impl View for Sequencer {
    type V = SequencerState;

    closed spec fn view(&self) -> SequencerState {
        self.state
    }
}

impl Sequencer {
    /// Every sequencer is in a state that a run can be in.
    #[verifier::type_invariant]
    closed spec fn inv(self) -> bool {
        self.state.wf()
    }

    /// A sequencer that has done nothing yet. `primary` is the operator's
    /// start preference: `true` for the primary knife.
    pub fn new(config: SequencerConfig, primary: bool) -> (sequencer: Sequencer)
        ensures
            sequencer@ == SequencerState::start(config, primary),
            sequencer@.wf(),
    {
        let selection = initial_selection(primary);
        Sequencer {
            state: SequencerState {
                config,
                phase: Phase::Idle,
                attempt: 0,
                selection,
                initial: selection,
            },
        }
    }

    /// What is to be done now.
    pub fn action(&self) -> (action: Action)
        ensures
            action == self@.action(),
    {
        match self.state.phase {
            Phase::Idle => Action::Send(Request::SelectHeater(self.state.selection)),
            Phase::AwaitingWarmup => Action::Wait(self.state.config.warmup_secs),
            Phase::Probing => Action::Send(Request::Status),
            Phase::Resetting => Action::Send(Request::Reset),
            Phase::SwitchingKnife => Action::Send(Request::SelectHeater(self.state.selection)),
            Phase::Arming => Action::Send(Request::Arm),
            Phase::Deploying => Action::Send(Request::Deploy),
            Phase::Cooldown => Action::Wait(self.state.config.cooldown_secs),
            Phase::Deployed => Action::Finish(Outcome::Deployed),
            Phase::RetriesExhausted => Action::Finish(Outcome::RetriesExhausted),
        }
    }

    /// Takes the outcome of the action last handed out, moves on, and hands
    /// out the next action. The attempt count grows by one where a cycle ends
    /// and stays as it is everywhere else; a finished run stays finished, and
    /// one that is not finished comes closer to its end.
    pub fn advance(&mut self, outcome: bool) -> (action: Action)
        ensures
            old(self)@.wf(),
            final(self)@ == old(self)@.next(outcome),
            final(self)@.wf(),
            action == final(self)@.action(),
            final(self)@.attempt == old(self)@.attempt + (if old(self)@.phase == Phase::Cooldown {
                1int
            } else {
                0int
            }),
            old(self)@.is_final() || final(self)@.steps_left() < old(self)@.steps_left(),
    {
        proof {
            use_type_invariant(&*self);
        }
        let state = self.state;
        let next = match state.phase {
            Phase::Idle => SequencerState { phase: Phase::AwaitingWarmup, ..state },
            Phase::AwaitingWarmup => SequencerState { phase: Phase::Probing, ..state },
            Phase::Probing => {
                if outcome {
                    SequencerState { phase: Phase::Deployed, ..state }
                } else if state.attempt == state.config.max_attempts {
                    SequencerState { phase: Phase::RetriesExhausted, ..state }
                } else {
                    SequencerState { phase: Phase::Resetting, ..state }
                }
            },
            Phase::Resetting => {
                if state.attempt >= state.config.fallback_threshold && state.selection
                    == state.initial {
                    SequencerState {
                        phase: Phase::SwitchingKnife,
                        selection: fallback(state.selection),
                        ..state
                    }
                } else {
                    SequencerState { phase: Phase::Arming, ..state }
                }
            },
            Phase::SwitchingKnife => SequencerState { phase: Phase::Arming, ..state },
            Phase::Arming => SequencerState { phase: Phase::Deploying, ..state },
            Phase::Deploying => SequencerState { phase: Phase::Cooldown, ..state },
            Phase::Cooldown => SequencerState {
                phase: Phase::Probing,
                attempt: state.attempt + 1,
                ..state
            },
            Phase::Deployed => state,
            Phase::RetriesExhausted => state,
        };
        self.state = next;
        self.action()
    }

    /// The whole state, as plain values.
    pub fn state(&self) -> (state: SequencerState)
        ensures
            state == self@,
            state.wf(),
    {
        proof {
            use_type_invariant(self);
        }
        self.state
    }

    /// Where the run stands.
    pub fn phase(&self) -> (phase: Phase)
        ensures
            phase == self@.phase,
    {
        self.state.phase
    }

    /// The number of cycles completed so far.
    pub fn attempt(&self) -> (attempt: u64)
        ensures
            attempt == self@.attempt,
    {
        self.state.attempt
    }

    /// The knife selected now.
    pub fn selection(&self) -> (selection: KnifeSelection)
        ensures
            selection == self@.selection,
    {
        self.state.selection
    }

    /// How the run ended, once it has.
    pub fn outcome(&self) -> (outcome: Option<Outcome>)
        ensures
            outcome == match self@.phase {
                Phase::Deployed => Some(Outcome::Deployed),
                Phase::RetriesExhausted => Some(Outcome::RetriesExhausted),
                _ => None,
            },
            outcome is Some <==> self@.is_final(),
    {
        match self.state.phase {
            Phase::Deployed => Some(Outcome::Deployed),
            Phase::RetriesExhausted => Some(Outcome::RetriesExhausted),
            _ => None,
        }
    }
}

} // verus!
