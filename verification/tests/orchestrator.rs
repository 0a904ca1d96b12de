use transcoder::orchestrator::EncodeAction::{
    Ignore, ReportFailure, RunAccelerated, RunSoftware, WritePlaylist,
};
use transcoder::orchestrator::EncodeEvent::{Exited, Start};
use transcoder::orchestrator::EncodeState::{
    Failed, NotStarted, RunningAccelerated, RunningSoftware, Succeeded,
};
use transcoder::orchestrator::{is_terminal, replay, step, EncodeAction, EncodeEvent, EncodeState};

#[test]
fn accelerated_success_ends_the_job() {
    let (state, actions) = replay(&vec![EncodeEvent::Start, EncodeEvent::Exited(0)]);
    assert_eq!(state, EncodeState::Succeeded);
    assert_eq!(actions, vec![EncodeAction::RunAccelerated, EncodeAction::WritePlaylist]);
}

#[test]
fn software_takes_over_after_accelerated_failure() {
    let (state, actions) =
        replay(&vec![EncodeEvent::Start, EncodeEvent::Exited(1), EncodeEvent::Exited(0)]);
    assert_eq!(state, EncodeState::Succeeded);
    assert_eq!(
        actions,
        vec![
            EncodeAction::RunAccelerated,
            EncodeAction::RunSoftware,
            EncodeAction::WritePlaylist
        ]
    );
}

#[test]
fn job_fails_when_both_encodes_fail() {
    let (state, actions) =
        replay(&vec![EncodeEvent::Start, EncodeEvent::Exited(1), EncodeEvent::Exited(1)]);
    assert_eq!(state, EncodeState::Failed);
    assert_eq!(
        actions,
        vec![
            EncodeAction::RunAccelerated,
            EncodeAction::RunSoftware,
            EncodeAction::ReportFailure
        ]
    );
    assert!(!actions.contains(&EncodeAction::WritePlaylist));
}

#[test]
fn every_transition_of_the_machine() {
    assert_eq!(step(NotStarted, Start), (RunningAccelerated, RunAccelerated));
    assert_eq!(step(NotStarted, Exited(0)), (NotStarted, Ignore));
    assert_eq!(step(NotStarted, Exited(1)), (NotStarted, Ignore));
    assert_eq!(step(RunningAccelerated, Start), (RunningAccelerated, Ignore));
    assert_eq!(step(RunningAccelerated, Exited(0)), (Succeeded, WritePlaylist));
    assert_eq!(step(RunningAccelerated, Exited(1)), (RunningSoftware, RunSoftware));
    assert_eq!(step(RunningAccelerated, Exited(-1)), (RunningSoftware, RunSoftware));
    assert_eq!(step(RunningAccelerated, Exited(255)), (RunningSoftware, RunSoftware));
    assert_eq!(step(RunningSoftware, Start), (RunningSoftware, Ignore));
    assert_eq!(step(RunningSoftware, Exited(0)), (Succeeded, WritePlaylist));
    assert_eq!(step(RunningSoftware, Exited(1)), (Failed, ReportFailure));
    assert_eq!(step(RunningSoftware, Exited(i32::MIN)), (Failed, ReportFailure));
    for state in [Succeeded, Failed] {
        for event in [Start, Exited(0), Exited(1)] {
            assert_eq!(step(state, event), (state, Ignore));
        }
    }
}

#[test]
fn terminal_states() {
    assert!(is_terminal(EncodeState::Succeeded));
    assert!(is_terminal(EncodeState::Failed));
    assert!(!is_terminal(EncodeState::NotStarted));
    assert!(!is_terminal(EncodeState::RunningAccelerated));
    assert!(!is_terminal(EncodeState::RunningSoftware));
}

#[test]
fn no_encode_is_started_twice() {
    let pool = [EncodeEvent::Start, EncodeEvent::Exited(0), EncodeEvent::Exited(1)];
    // every sequence of five events over the pool
    for code in 0..243usize {
        let mut events = Vec::new();
        let mut c = code;
        for _ in 0..5 {
            events.push(pool[c % 3]);
            c /= 3;
        }
        let (state, actions) = replay(&events);
        let count = |a: EncodeAction| actions.iter().filter(|x| **x == a).count();
        assert!(count(EncodeAction::RunAccelerated) <= 1);
        assert!(count(EncodeAction::RunSoftware) <= 1);
        assert!(count(EncodeAction::WritePlaylist) <= 1);
        assert_eq!(count(EncodeAction::WritePlaylist) == 1, state == EncodeState::Succeeded);
        assert_eq!(count(EncodeAction::ReportFailure) == 1, state == EncodeState::Failed);
        assert_eq!(actions.len(), events.len());
    }
}

#[test]
fn replay_of_nothing_stays_at_the_start() {
    let (state, actions) = replay(&Vec::new());
    assert_eq!(state, EncodeState::NotStarted);
    assert!(actions.is_empty());
}
