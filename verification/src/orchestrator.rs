//! The fallback between the two encodes: the accelerated encode runs first,
//! the software encode only after the accelerated one has failed, and neither
//! runs twice.
//!
//! The machine decides; the caller runs the encoder and reports how it ended.

use vstd::prelude::*;

verus! {

/// Where the encoding of one job stands.
#[derive(Clone, Copy, Debug, PartialEq, Eq, Structural)]
pub enum EncodeState {
    /// Nothing has run yet.
    NotStarted,
    /// The accelerated encode is running.
    RunningAccelerated,
    /// The accelerated encode has failed and the software encode is running.
    RunningSoftware,
    /// One of the two encodes has succeeded.
    Succeeded,
    /// Both encodes have failed.
    Failed,
}

/// What the caller reports to the machine.
#[derive(Clone, Copy, Debug, PartialEq, Eq, Structural)]
pub enum EncodeEvent {
    /// The job is ready to encode.
    Start,
    /// The encoder that was running has ended with this exit status.
    Exited(i32),
}

/// What the caller has to do next.
#[derive(Clone, Copy, Debug, PartialEq, Eq, Structural)]
pub enum EncodeAction {
    /// Run the accelerated plan and report its exit status.
    RunAccelerated,
    /// Run the software plan and report its exit status.
    RunSoftware,
    /// The ladder is encoded: write the master playlist.
    WritePlaylist,
    /// The job has failed: hand the software encoder's diagnostics to the
    /// operator and write nothing.
    ReportFailure,
    /// The event does not apply in this state and is ignored.
    Ignore,
}

/// Whether an exit status stands for success.
pub open spec fn exit_success(status: i32) -> bool {
    status == 0
}

/// The state that follows `state` on `event`. An event that does not apply
/// leaves the state as it is; `Succeeded` and `Failed` are never left.
pub open spec fn next_state(state: EncodeState, event: EncodeEvent) -> EncodeState {
    match (state, event) {
        (EncodeState::NotStarted, EncodeEvent::Start) => EncodeState::RunningAccelerated,
        (EncodeState::RunningAccelerated, EncodeEvent::Exited(status)) => if exit_success(status) {
            EncodeState::Succeeded
        } else {
            EncodeState::RunningSoftware
        },
        (EncodeState::RunningSoftware, EncodeEvent::Exited(status)) => if exit_success(status) {
            EncodeState::Succeeded
        } else {
            EncodeState::Failed
        },
        _ => state,
    }
}

/// What the caller has to do when `event` arrives in `state`.
pub open spec fn action_on(state: EncodeState, event: EncodeEvent) -> EncodeAction {
    match (state, event) {
        (EncodeState::NotStarted, EncodeEvent::Start) => EncodeAction::RunAccelerated,
        (EncodeState::RunningAccelerated, EncodeEvent::Exited(status)) => if exit_success(status) {
            EncodeAction::WritePlaylist
        } else {
            EncodeAction::RunSoftware
        },
        (EncodeState::RunningSoftware, EncodeEvent::Exited(status)) => if exit_success(status) {
            EncodeAction::WritePlaylist
        } else {
            EncodeAction::ReportFailure
        },
        _ => EncodeAction::Ignore,
    }
}

/// The state reached from `state` after all of `events`, in order.
pub open spec fn state_after(state: EncodeState, events: Seq<EncodeEvent>) -> EncodeState
    decreases events.len(),
{
    if events.len() == 0 {
        state
    } else {
        next_state(state_after(state, events.drop_last()), events.last())
    }
}

/// The actions asked for from `state` on `events`, one per event.
pub open spec fn actions_on(state: EncodeState, events: Seq<EncodeEvent>) -> Seq<EncodeAction>
    decreases events.len(),
{
    if events.len() == 0 {
        Seq::empty()
    } else {
        actions_on(state, events.drop_last()).push(
            action_on(state_after(state, events.drop_last()), events.last()),
        )
    }
}

/// How often `action` occurs in `actions`.
pub open spec fn occurrences(actions: Seq<EncodeAction>, action: EncodeAction) -> nat
    decreases actions.len(),
{
    if actions.len() == 0 {
        0
    } else {
        occurrences(actions.drop_last(), action) + if actions.last() == action {
            1nat
        } else {
            0nat
        }
    }
}

/// How many accelerated encodes may still be started from `state`.
pub open spec fn accelerated_left(state: EncodeState) -> nat {
    match state {
        EncodeState::NotStarted => 1,
        _ => 0,
    }
}

/// How many software encodes may still be started from `state`.
pub open spec fn software_left(state: EncodeState) -> nat {
    match state {
        EncodeState::NotStarted => 1,
        EncodeState::RunningAccelerated => 1,
        _ => 0,
    }
}

/// Advances the machine by one event and says what to do next.
pub fn step(state: EncodeState, event: EncodeEvent) -> (r: (EncodeState, EncodeAction))
    ensures
        r.0 == next_state(state, event),
        r.1 == action_on(state, event),
{
    match (state, event) {
        (EncodeState::NotStarted, EncodeEvent::Start) => (
            EncodeState::RunningAccelerated,
            EncodeAction::RunAccelerated,
        ),
        (EncodeState::RunningAccelerated, EncodeEvent::Exited(status)) => {
            if status == 0 {
                (EncodeState::Succeeded, EncodeAction::WritePlaylist)
            } else {
                (EncodeState::RunningSoftware, EncodeAction::RunSoftware)
            }
        },
        (EncodeState::RunningSoftware, EncodeEvent::Exited(status)) => {
            if status == 0 {
                (EncodeState::Succeeded, EncodeAction::WritePlaylist)
            } else {
                (EncodeState::Failed, EncodeAction::ReportFailure)
            }
        },
        _ => (state, EncodeAction::Ignore),
    }
}

/// Runs the machine from `NotStarted` over `events` and returns the state
/// reached together with the action asked for on each event.
pub fn replay(events: &Vec<EncodeEvent>) -> (r: (EncodeState, Vec<EncodeAction>))
    ensures
        r.0 == state_after(EncodeState::NotStarted, events@),
        r.1@ == actions_on(EncodeState::NotStarted, events@),
{
    let mut state = EncodeState::NotStarted;
    let mut actions: Vec<EncodeAction> = Vec::new();
    let mut i: usize = 0;
    while i < events.len()
        invariant
            i <= events@.len(),
            state == state_after(EncodeState::NotStarted, events@.take(i as int)),
            actions@ == actions_on(EncodeState::NotStarted, events@.take(i as int)),
        decreases events@.len() - i,
    {
        assert(events@.take(i + 1).drop_last() =~= events@.take(i as int));
        let (next, action) = step(state, events[i]);
        state = next;
        actions.push(action);
        i += 1;
    }
    assert(events@.take(events@.len() as int) =~= events@);
    (state, actions)
}

/// Whether the job is over in `state`.
pub fn is_terminal(state: EncodeState) -> (r: bool)
    ensures
        r == (state == EncodeState::Succeeded || state == EncodeState::Failed),
{
    match state {
        EncodeState::Succeeded => true,
        EncodeState::Failed => true,
        _ => false,
    }
}

/// Whatever is reported and in whatever order, each encode is started at
/// most once: every start uses up what the state had left, and nothing
/// gives it back.
pub proof fn lemma_attempts_are_bounded(state: EncodeState, events: Seq<EncodeEvent>)
    ensures
        occurrences(actions_on(state, events), EncodeAction::RunAccelerated) <= 1,
        occurrences(actions_on(state, events), EncodeAction::RunSoftware) <= 1,
        occurrences(actions_on(state, events), EncodeAction::RunAccelerated) + accelerated_left(
            state_after(state, events),
        ) == accelerated_left(state),
        occurrences(actions_on(state, events), EncodeAction::RunSoftware) + software_left(
            state_after(state, events),
        ) <= software_left(state),
    decreases events.len(),
{
    if events.len() > 0 {
        lemma_attempts_are_bounded(state, events.drop_last());
        assert(actions_on(state, events).drop_last() =~= actions_on(state, events.drop_last()));
    }
}

/// The software encode is started exactly when the accelerated encode ends
/// in failure, and at that moment only.
pub proof fn lemma_software_follows_accelerated_failure(state: EncodeState, event: EncodeEvent)
    ensures
        action_on(state, event) == EncodeAction::RunSoftware <==> state
            == EncodeState::RunningAccelerated && (event matches EncodeEvent::Exited(status)
            && !exit_success(status)),
        action_on(state, event) == EncodeAction::RunSoftware ==> next_state(state, event)
            == EncodeState::RunningSoftware,
{
}

/// A failure of the software encode ends the job: the state is `Failed`, and
/// from there no event starts an encode or asks for the playlist.
pub proof fn lemma_software_failure_is_final(status: i32, events: Seq<EncodeEvent>)
    requires
        !exit_success(status),
    ensures
        next_state(EncodeState::RunningSoftware, EncodeEvent::Exited(status))
            == EncodeState::Failed,
        action_on(EncodeState::RunningSoftware, EncodeEvent::Exited(status))
            == EncodeAction::ReportFailure,
        state_after(EncodeState::Failed, events) == EncodeState::Failed,
        forall|i: int|
            0 <= i < events.len() ==> (#[trigger] actions_on(EncodeState::Failed, events)[i])
                == EncodeAction::Ignore,
        actions_on(EncodeState::Failed, events).len() == events.len(),
    decreases events.len(),
{
    if events.len() > 0 {
        lemma_software_failure_is_final(status, events.drop_last());
    }
}

/// The playlist is asked for at most once, and only on the way into
/// `Succeeded`: a job that has asked for it has succeeded, and a job that
/// has failed never asked for it.
pub proof fn lemma_playlist_only_after_success(events: Seq<EncodeEvent>)
    ensures
        occurrences(actions_on(EncodeState::NotStarted, events), EncodeAction::WritePlaylist) <= 1,
        occurrences(actions_on(EncodeState::NotStarted, events), EncodeAction::WritePlaylist) == 1
            <==> state_after(EncodeState::NotStarted, events) == EncodeState::Succeeded,
        state_after(EncodeState::NotStarted, events) == EncodeState::Failed ==> occurrences(
            actions_on(EncodeState::NotStarted, events),
            EncodeAction::WritePlaylist,
        ) == 0,
    decreases events.len(),
{
    if events.len() > 0 {
        lemma_playlist_only_after_success(events.drop_last());
        assert(actions_on(EncodeState::NotStarted, events).drop_last() =~= actions_on(
            EncodeState::NotStarted,
            events.drop_last(),
        ));
    }
}

} // verus!
