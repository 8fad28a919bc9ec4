use antenna_deploy::command::{request_outcome, Request};
use antenna_deploy::knife::KnifeSelection;
use antenna_deploy::sequencer::{
    Action, Outcome, Phase, Sequencer, SequencerConfig, SequencerState,
};
use serde_json::Value;

fn parse(text: &str) -> Value {
    serde_json::from_str(text).unwrap()
}

fn config(max_attempts: u64, fallback_threshold: u64) -> SequencerConfig {
    SequencerConfig {
        max_attempts,
        fallback_threshold,
        warmup_secs: 5,
        cooldown_secs: 1,
        query_timeout_secs: 2,
    }
}

struct Trace {
    actions: Vec<Action>,
    switch_attempts: Vec<u64>,
    outcome: Outcome,
    attempt: u64,
    selection: KnifeSelection,
}

impl Trace {
    fn count(&self, wanted: Action) -> usize {
        self.actions.iter().filter(|a| **a == wanted).count()
    }

    fn selections(&self) -> Vec<KnifeSelection> {
        let mut found = Vec::new();
        for action in &self.actions {
            if let Action::Send(Request::SelectHeater(which)) = action {
                found.push(*which);
            }
        }
        found
    }
}

/// Runs a sequencer to its end. `deployed_at` is the number of the probe,
/// counted from one, that first reports deployment, if any does; every
/// command reports `commands_succeed`.
fn drive(
    config: SequencerConfig,
    primary: bool,
    deployed_at: Option<usize>,
    commands_succeed: bool,
) -> Trace {
    let mut sequencer = Sequencer::new(config, primary);
    let mut actions = Vec::new();
    let mut switch_attempts = Vec::new();
    let mut probes = 0;
    let mut action = sequencer.action();
    let mut steps = 0u64;
    loop {
        actions.push(action);
        if sequencer.phase() == Phase::SwitchingKnife {
            switch_attempts.push(sequencer.attempt());
        }
        let outcome = match action {
            Action::Finish(outcome) => {
                assert_eq!(sequencer.outcome(), Some(outcome));
                return Trace {
                    actions,
                    switch_attempts,
                    outcome,
                    attempt: sequencer.attempt(),
                    selection: sequencer.selection(),
                };
            }
            Action::Wait(_) => true,
            Action::Send(Request::Status) => {
                probes += 1;
                deployed_at.map_or(false, |n| probes >= n)
            }
            Action::Send(_) => commands_succeed,
        };
        assert_eq!(sequencer.outcome(), None);
        action = sequencer.advance(outcome);
        steps += 1;
        assert!(steps <= 6 * config.max_attempts + 8, "the run does not end");
    }
}

#[test]
fn default_config_has_the_documented_values() {
    let c = SequencerConfig::default();
    assert_eq!(c.max_attempts, 6);
    assert_eq!(c.fallback_threshold, 3);
    assert_eq!(c.warmup_secs, 1800);
    assert_eq!(c.cooldown_secs, 60);
    assert_eq!(c.query_timeout_secs, 30);
}

#[test]
fn new_sequencer_is_idle() {
    let s = Sequencer::new(SequencerConfig::default(), true);
    assert_eq!(
        s.state(),
        SequencerState {
            config: SequencerConfig::default(),
            phase: Phase::Idle,
            attempt: 0,
            selection: KnifeSelection::Primary,
            initial: KnifeSelection::Primary,
        }
    );
    assert_eq!(s.phase(), Phase::Idle);
    assert_eq!(s.attempt(), 0);
    assert_eq!(s.selection(), KnifeSelection::Primary);
    assert_eq!(s.outcome(), None);
    assert_eq!(s.action(), Action::Send(Request::SelectHeater(KnifeSelection::Primary)));
}

#[test]
fn start_selects_heater_then_warms_up_then_probes() {
    let mut s = Sequencer::new(SequencerConfig::default(), false);
    assert_eq!(s.action(), Action::Send(Request::SelectHeater(KnifeSelection::Secondary)));
    assert_eq!(s.advance(false), Action::Wait(1800));
    assert_eq!(s.phase(), Phase::AwaitingWarmup);
    assert_eq!(s.advance(true), Action::Send(Request::Status));
    assert_eq!(s.phase(), Phase::Probing);
    assert_eq!(s.attempt(), 0);
}

#[test]
fn scenario_deployed_on_first_probe() {
    let t = drive(SequencerConfig::default(), true, Some(1), true);
    assert_eq!(
        t.actions,
        vec![
            Action::Send(Request::SelectHeater(KnifeSelection::Primary)),
            Action::Wait(1800),
            Action::Send(Request::Status),
            Action::Finish(Outcome::Deployed),
        ]
    );
    assert_eq!(t.outcome, Outcome::Deployed);
    assert_eq!(t.count(Action::Send(Request::Status)), 1);
    assert_eq!(t.count(Action::Send(Request::Reset)), 0);
    assert_eq!(t.count(Action::Send(Request::Arm)), 0);
    assert_eq!(t.count(Action::Send(Request::Deploy)), 0);
    assert_eq!(t.attempt, 0);
}

#[test]
fn scenario_always_stowed_exhausts_retries() {
    let t = drive(SequencerConfig::default(), true, None, true);
    assert_eq!(t.outcome, Outcome::RetriesExhausted);
    assert_eq!(t.count(Action::Send(Request::Reset)), 6);
    assert_eq!(t.count(Action::Send(Request::Arm)), 6);
    assert_eq!(t.count(Action::Send(Request::Deploy)), 6);
    assert_eq!(t.count(Action::Wait(60)), 6);
    assert_eq!(t.count(Action::Wait(1800)), 1);
    assert_eq!(t.count(Action::Send(Request::Status)), 7);
    assert_eq!(t.actions.len(), 35);
    assert_eq!(t.selections(), vec![KnifeSelection::Primary, KnifeSelection::Secondary]);
    assert_eq!(t.switch_attempts, vec![3]);
    assert_eq!(t.attempt, 6);
    assert_eq!(t.selection, KnifeSelection::Secondary);
    assert_eq!(t.actions.last(), Some(&Action::Finish(Outcome::RetriesExhausted)));
}

#[test]
fn scenario_always_stowed_order_of_one_cycle() {
    let t = drive(config(1, 3), true, None, true);
    assert_eq!(
        t.actions,
        vec![
            Action::Send(Request::SelectHeater(KnifeSelection::Primary)),
            Action::Wait(5),
            Action::Send(Request::Status),
            Action::Send(Request::Reset),
            Action::Send(Request::Arm),
            Action::Send(Request::Deploy),
            Action::Wait(1),
            Action::Send(Request::Status),
            Action::Finish(Outcome::RetriesExhausted),
        ]
    );
}

#[test]
fn scenario_missing_status_field_keeps_retrying() {
    let reply = parse(r#"{"deploymentStatus":{"sysArmed":true}}"#);
    let stowed = parse(r#"{"deploymentStatus":{"status":"STOWED"}}"#);
    let mut a = Sequencer::new(SequencerConfig::default(), true);
    let mut b = Sequencer::new(SequencerConfig::default(), true);
    for s in [&mut a, &mut b] {
        s.advance(true);
        assert_eq!(s.advance(true), Action::Send(Request::Status));
    }
    let next_a = a.advance(request_outcome(Request::Status, Some(&reply)));
    let next_b = b.advance(request_outcome(Request::Status, Some(&stowed)));
    assert_eq!(next_a, Action::Send(Request::Reset));
    assert_eq!(next_a, next_b);
    assert_eq!(a.state(), b.state());
    assert_eq!(a.phase(), Phase::Resetting);
    assert_eq!(a.outcome(), None);
}

#[test]
fn scenario_probe_without_reply_keeps_retrying() {
    let mut s = Sequencer::new(SequencerConfig::default(), true);
    s.advance(true);
    s.advance(true);
    assert_eq!(s.advance(request_outcome(Request::Status, None)), Action::Send(Request::Reset));
}

#[test]
fn scenario_secondary_falls_back_to_primary() {
    let t = drive(SequencerConfig::default(), false, None, true);
    assert_eq!(t.selections(), vec![KnifeSelection::Secondary, KnifeSelection::Primary]);
    assert_eq!(t.count(Action::Send(Request::SelectHeater(KnifeSelection::Primary))), 1);
    assert_eq!(t.count(Action::Send(Request::SelectHeater(KnifeSelection::Secondary))), 1);
    assert_eq!(t.switch_attempts, vec![3]);
    assert_eq!(t.selection, KnifeSelection::Primary);
    assert_eq!(t.outcome, Outcome::RetriesExhausted);
}

#[test]
fn switch_comes_between_reset_and_arm() {
    let t = drive(config(2, 1), true, None, true);
    assert_eq!(
        t.actions,
        vec![
            Action::Send(Request::SelectHeater(KnifeSelection::Primary)),
            Action::Wait(5),
            Action::Send(Request::Status),
            Action::Send(Request::Reset),
            Action::Send(Request::Arm),
            Action::Send(Request::Deploy),
            Action::Wait(1),
            Action::Send(Request::Status),
            Action::Send(Request::Reset),
            Action::Send(Request::SelectHeater(KnifeSelection::Secondary)),
            Action::Send(Request::Arm),
            Action::Send(Request::Deploy),
            Action::Wait(1),
            Action::Send(Request::Status),
            Action::Finish(Outcome::RetriesExhausted),
        ]
    );
    assert_eq!(t.switch_attempts, vec![1]);
}

#[test]
fn attempt_grows_by_one_per_cycle() {
    let mut s = Sequencer::new(SequencerConfig::default(), true);
    s.advance(true);
    s.advance(true);
    for cycle in 0..6u64 {
        assert_eq!(s.phase(), Phase::Probing);
        assert_eq!(s.attempt(), cycle);
        let mut action = s.advance(false);
        while action != Action::Send(Request::Status) {
            assert_eq!(s.attempt(), cycle);
            action = s.advance(false);
        }
        assert_eq!(s.attempt(), cycle + 1);
    }
    assert_eq!(s.advance(false), Action::Finish(Outcome::RetriesExhausted));
    assert_eq!(s.attempt(), 6);
}

#[test]
fn command_failures_change_nothing() {
    for deployed_at in [None, Some(1), Some(3), Some(5), Some(7), Some(8)] {
        for primary in [true, false] {
            let ok = drive(SequencerConfig::default(), primary, deployed_at, true);
            let failing = drive(SequencerConfig::default(), primary, deployed_at, false);
            assert_eq!(ok.actions, failing.actions);
            assert_eq!(ok.outcome, failing.outcome);
            assert_eq!(ok.attempt, failing.attempt);
        }
    }
}

#[test]
fn single_command_failure_reaches_the_next_state() {
    let mut s = Sequencer::new(SequencerConfig::default(), true);
    assert_eq!(s.advance(false), Action::Wait(1800));
    assert_eq!(s.advance(false), Action::Send(Request::Status));
    assert_eq!(s.advance(false), Action::Send(Request::Reset));
    assert_eq!(s.advance(false), Action::Send(Request::Arm));
    assert_eq!(s.advance(false), Action::Send(Request::Deploy));
    assert_eq!(s.advance(false), Action::Wait(60));
    assert_eq!(s.advance(false), Action::Send(Request::Status));
    assert_eq!(s.attempt(), 1);
}

#[test]
fn deployment_seen_later_ends_the_run_there() {
    let t = drive(SequencerConfig::default(), true, Some(3), true);
    assert_eq!(t.outcome, Outcome::Deployed);
    assert_eq!(t.count(Action::Send(Request::Status)), 3);
    assert_eq!(t.count(Action::Send(Request::Deploy)), 2);
    assert_eq!(t.switch_attempts, Vec::<u64>::new());
    assert_eq!(t.attempt, 2);
    assert_eq!(t.selection, KnifeSelection::Primary);
}

#[test]
fn deployment_seen_on_the_last_probe_counts() {
    let t = drive(SequencerConfig::default(), true, Some(7), true);
    assert_eq!(t.outcome, Outcome::Deployed);
    assert_eq!(t.count(Action::Send(Request::Deploy)), 6);
    assert_eq!(t.attempt, 6);
}

#[test]
fn no_attempts_allowed_ends_after_one_probe() {
    let t = drive(config(0, 3), true, None, true);
    assert_eq!(
        t.actions,
        vec![
            Action::Send(Request::SelectHeater(KnifeSelection::Primary)),
            Action::Wait(5),
            Action::Send(Request::Status),
            Action::Finish(Outcome::RetriesExhausted),
        ]
    );
}

#[test]
fn threshold_at_or_above_the_limit_never_switches() {
    let t = drive(config(6, 6), true, None, true);
    assert_eq!(t.selections(), vec![KnifeSelection::Primary]);
    assert_eq!(t.selection, KnifeSelection::Primary);
    let t = drive(config(6, u64::MAX), false, None, true);
    assert_eq!(t.selections(), vec![KnifeSelection::Secondary]);
}

#[test]
fn switch_falls_in_the_cycle_after_threshold_failures() {
    for threshold in 0..6u64 {
        let t = drive(config(6, threshold), true, None, true);
        assert_eq!(t.switch_attempts, vec![threshold]);
        assert_eq!(t.selections(), vec![KnifeSelection::Primary, KnifeSelection::Secondary]);
    }
}

#[test]
fn zero_threshold_switches_in_the_first_cycle() {
    let t = drive(config(1, 0), false, None, true);
    assert_eq!(
        t.actions,
        vec![
            Action::Send(Request::SelectHeater(KnifeSelection::Secondary)),
            Action::Wait(5),
            Action::Send(Request::Status),
            Action::Send(Request::Reset),
            Action::Send(Request::SelectHeater(KnifeSelection::Primary)),
            Action::Send(Request::Arm),
            Action::Send(Request::Deploy),
            Action::Wait(1),
            Action::Send(Request::Status),
            Action::Finish(Outcome::RetriesExhausted),
        ]
    );
}

#[test]
fn fourth_cycle_switches_between_reset_and_arm() {
    let mut s = Sequencer::new(SequencerConfig::default(), true);
    s.advance(true);
    let mut action = s.advance(true);
    let mut resets = 0;
    let mut arms = 0;
    while resets < 4 {
        assert_eq!(s.selection(), KnifeSelection::Primary);
        if action == Action::Send(Request::Reset) {
            resets += 1;
        }
        if action == Action::Send(Request::Arm) {
            arms += 1;
        }
        action = s.advance(false);
    }
    assert_eq!(arms, 3);
    assert_eq!(action, Action::Send(Request::SelectHeater(KnifeSelection::Secondary)));
    assert_eq!(s.phase(), Phase::SwitchingKnife);
    assert_eq!(s.selection(), KnifeSelection::Secondary);
    assert_eq!(s.attempt(), 3);
    assert_eq!(s.advance(false), Action::Send(Request::Arm));
    assert_eq!(s.selection(), KnifeSelection::Secondary);
}

#[test]
fn four_failed_probes_then_deployed_has_switched_once() {
    let t = drive(SequencerConfig::default(), false, Some(5), true);
    assert_eq!(t.outcome, Outcome::Deployed);
    assert_eq!(t.selections(), vec![KnifeSelection::Secondary, KnifeSelection::Primary]);
    assert_eq!(t.switch_attempts, vec![3]);
    assert_eq!(t.selection, KnifeSelection::Primary);
    assert_eq!(t.count(Action::Send(Request::Deploy)), 4);
}

#[test]
fn three_failed_probes_then_deployed_has_not_switched() {
    let t = drive(SequencerConfig::default(), false, Some(4), true);
    assert_eq!(t.outcome, Outcome::Deployed);
    assert_eq!(t.selections(), vec![KnifeSelection::Secondary]);
    assert_eq!(t.selection, KnifeSelection::Secondary);
    assert_eq!(t.count(Action::Send(Request::Deploy)), 3);
}

#[test]
fn finished_run_stays_finished() {
    let mut s = Sequencer::new(SequencerConfig::default(), true);
    s.advance(true);
    s.advance(true);
    assert_eq!(s.advance(true), Action::Finish(Outcome::Deployed));
    let before = s.state();
    assert_eq!(s.advance(false), Action::Finish(Outcome::Deployed));
    assert_eq!(s.advance(true), Action::Finish(Outcome::Deployed));
    assert_eq!(s.state(), before);
    assert_eq!(s.outcome(), Some(Outcome::Deployed));
}

#[test]
fn run_ends_within_the_bound() {
    for max_attempts in [0u64, 1, 2, 6, 10] {
        let t = drive(config(max_attempts, 3), true, None, false);
        assert!(t.actions.len() as u64 <= 6 * max_attempts + 9);
        assert_eq!(t.attempt, max_attempts);
        assert_eq!(t.count(Action::Send(Request::Deploy)) as u64, max_attempts);
    }
}
