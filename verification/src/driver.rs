//! The outer loop as an explicit state machine.
//!
//! The loop cycles `Loading` (reload the configuration) → `Connecting`
//! (construct the client) → `Streaming` (pull samples) → `Idle` (clear the
//! display, back off) → `Loading`, indefinitely. Configuration and
//! connection failures abort the process; a stream that errors or ends only
//! ends the session, emitting one blank record; a topology inconsistency
//! likewise ends the session rather than the process. The caller performs
//! each returned action (outside work) and feeds the outcome back in as the
//! next event.

use vstd::prelude::*;

verus! {

/// How long the loop backs off between sessions, in seconds. The backoff is
/// fixed and independent of the configured emission interval; it bounds how
/// fast the loop can spin against a daemon that keeps failing.
pub const IDLE_BACKOFF_SECS: u64 = 5;

/// Where the loop stands.
#[derive(Clone, Copy, PartialEq, Eq, Structural, Debug)]
pub enum DriverState {
    /// Reloading the configuration from disk.
    Loading,
    /// Constructing the client from the loaded configuration.
    Connecting,
    /// Pulling samples from the open traffic stream.
    Streaming,
    /// Between sessions, backing off before the next attempt.
    Idle,
}

/// The outcome of the last action, handed back by the caller.
#[derive(Clone, Copy, PartialEq, Eq, Structural, Debug)]
pub enum DriverEvent {
    /// The configuration loaded and resolved.
    ConfigOk,
    /// The configuration could not be loaded.
    ConfigFailed,
    /// The client was built and the traffic stream opened.
    ConnectOk,
    /// The client could not be built.
    ConnectFailed,
    /// The traffic stream could not be opened.
    StreamOpenFailed,
    /// A sample was pulled and handled.
    SampleHandled,
    /// A stream item signalled an upstream error.
    StreamItemError,
    /// The stream ended.
    StreamEnded,
    /// The topology snapshot was inconsistent.
    TopologyFailed,
    /// The backoff sleep finished.
    Slept,
}

/// Outside work the caller performs next.
#[derive(Clone, Copy, PartialEq, Eq, Structural, Debug)]
pub enum DriverAction {
    /// Read and resolve the configuration file.
    ReloadConfig,
    /// Construct the client and open the traffic stream.
    BuildClient,
    /// Pull the next item from the traffic stream.
    PullSample,
    /// Emit one blank record, clearing the display.
    EmitBlank,
    /// Sleep for the fixed backoff duration.
    SleepBackoff,
    /// Terminate the process with a diagnostic.
    AbortProcess,
}

/// What one step of the loop does: the next state and the actions to
/// perform, in order. An event that does not belong to the state leaves the
/// state unchanged with nothing to do.
pub open spec fn step_spec(s: DriverState, e: DriverEvent) -> (DriverState, Seq<DriverAction>) {
    match (s, e) {
        (DriverState::Loading, DriverEvent::ConfigOk) => (
            DriverState::Connecting,
            seq![DriverAction::BuildClient],
        ),
        (DriverState::Loading, DriverEvent::ConfigFailed) => (
            DriverState::Loading,
            seq![DriverAction::AbortProcess],
        ),
        (DriverState::Connecting, DriverEvent::ConnectOk) => (
            DriverState::Streaming,
            seq![DriverAction::PullSample],
        ),
        (DriverState::Connecting, DriverEvent::ConnectFailed) => (
            DriverState::Connecting,
            seq![DriverAction::AbortProcess],
        ),
        (DriverState::Connecting, DriverEvent::StreamOpenFailed) => (
            DriverState::Idle,
            seq![DriverAction::SleepBackoff],
        ),
        (DriverState::Streaming, DriverEvent::SampleHandled) => (
            DriverState::Streaming,
            seq![DriverAction::PullSample],
        ),
        (DriverState::Streaming, DriverEvent::StreamItemError) => (
            DriverState::Idle,
            seq![DriverAction::EmitBlank, DriverAction::SleepBackoff],
        ),
        (DriverState::Streaming, DriverEvent::StreamEnded) => (
            DriverState::Idle,
            seq![DriverAction::EmitBlank, DriverAction::SleepBackoff],
        ),
        (DriverState::Streaming, DriverEvent::TopologyFailed) => (
            DriverState::Idle,
            seq![DriverAction::EmitBlank, DriverAction::SleepBackoff],
        ),
        (DriverState::Idle, DriverEvent::Slept) => (
            DriverState::Loading,
            seq![DriverAction::ReloadConfig],
        ),
        _ => (s, Seq::empty()),
    }
}

/// Advance the loop by one event.
pub fn step(s: DriverState, e: DriverEvent) -> (r: (DriverState, Vec<DriverAction>))
    ensures
        r.0 == step_spec(s, e).0,
        r.1@ == step_spec(s, e).1,
{
    match (s, e) {
        (DriverState::Loading, DriverEvent::ConfigOk) => (
            DriverState::Connecting,
            vec![DriverAction::BuildClient],
        ),
        (DriverState::Loading, DriverEvent::ConfigFailed) => (
            DriverState::Loading,
            vec![DriverAction::AbortProcess],
        ),
        (DriverState::Connecting, DriverEvent::ConnectOk) => (
            DriverState::Streaming,
            vec![DriverAction::PullSample],
        ),
        (DriverState::Connecting, DriverEvent::ConnectFailed) => (
            DriverState::Connecting,
            vec![DriverAction::AbortProcess],
        ),
        (DriverState::Connecting, DriverEvent::StreamOpenFailed) => (
            DriverState::Idle,
            vec![DriverAction::SleepBackoff],
        ),
        (DriverState::Streaming, DriverEvent::SampleHandled) => (
            DriverState::Streaming,
            vec![DriverAction::PullSample],
        ),
        (DriverState::Streaming, DriverEvent::StreamItemError) => (
            DriverState::Idle,
            vec![DriverAction::EmitBlank, DriverAction::SleepBackoff],
        ),
        (DriverState::Streaming, DriverEvent::StreamEnded) => (
            DriverState::Idle,
            vec![DriverAction::EmitBlank, DriverAction::SleepBackoff],
        ),
        (DriverState::Streaming, DriverEvent::TopologyFailed) => (
            DriverState::Idle,
            vec![DriverAction::EmitBlank, DriverAction::SleepBackoff],
        ),
        (DriverState::Idle, DriverEvent::Slept) => (
            DriverState::Loading,
            vec![DriverAction::ReloadConfig],
        ),
        _ => (s, Vec::new()),
    }
}

/// How many blank records a list of actions emits.
pub open spec fn blank_count(actions: Seq<DriverAction>) -> nat
    decreases actions.len(),
{
    if actions.len() == 0 {
        0
    } else {
        blank_count(actions.drop_last()) + if actions.last() == DriverAction::EmitBlank {
            1nat
        } else {
            0nat
        }
    }
}

/// The final state and all actions, in order, of a whole run of steps.
pub open spec fn run_steps(s: DriverState, events: Seq<DriverEvent>) -> (
    DriverState,
    Seq<DriverAction>,
) {
    events.fold_left((s, Seq::<DriverAction>::empty()), |acc: (DriverState, Seq<DriverAction>), e: DriverEvent| {
        let (s1, a) = step_spec(acc.0, e);
        (s1, acc.1 + a)
    })
}

/// A blank record is emitted exactly on leaving `Streaming` for `Idle` —
/// when a stream item errors, the stream ends, or the topology is found
/// inconsistent — and exactly one; no other step emits any.
pub proof fn lemma_blank_only_on_session_end(s: DriverState, e: DriverEvent)
    ensures
        blank_count(step_spec(s, e).1) == if s == DriverState::Streaming && (e
            == DriverEvent::StreamItemError || e == DriverEvent::StreamEnded || e
            == DriverEvent::TopologyFailed) {
            1nat
        } else {
            0nat
        },
{
    let acts = step_spec(s, e).1;
    assert(blank_count(Seq::<DriverAction>::empty()) == 0);
    assert(forall|a: DriverAction| blank_count(#[trigger] seq![a]) == (if a
        == DriverAction::EmitBlank {
        1nat
    } else {
        0nat
    })) by {
        assert(forall|a: DriverAction| (#[trigger] seq![a]).drop_last() =~= Seq::<
            DriverAction,
        >::empty());
    }
    assert(forall|a: DriverAction, b: DriverAction| blank_count(#[trigger] seq![a, b]) == (if a
        == DriverAction::EmitBlank {
        1nat
    } else {
        0nat
    }) + (if b == DriverAction::EmitBlank {
        1nat
    } else {
        0nat
    })) by {
        assert(forall|a: DriverAction, b: DriverAction| (#[trigger] seq![a, b]).drop_last() =~= seq![a]);
        assert(forall|a: DriverAction| (#[trigger] seq![a]).drop_last() =~= Seq::<
            DriverAction,
        >::empty());
    }
}

/// After a stream item signals an upstream error, the loop emits exactly one
/// blank record on its way back to `Loading`.
pub proof fn lemma_one_blank_before_reload()
    ensures
        ({
            let (sf, acts) = run_steps(
                DriverState::Streaming,
                seq![DriverEvent::StreamItemError, DriverEvent::Slept],
            );
            sf == DriverState::Loading && blank_count(acts) == 1
        }),
{
    let events = seq![DriverEvent::StreamItemError, DriverEvent::Slept];
    let (sf, acts) = run_steps(DriverState::Streaming, events);
    reveal_with_fuel(Seq::fold_left, 3);
    assert(events.drop_last() =~= seq![DriverEvent::StreamItemError]);
    assert(events.drop_last().drop_last() =~= Seq::<DriverEvent>::empty());
    lemma_blank_only_on_session_end(DriverState::Streaming, DriverEvent::StreamItemError);
    lemma_blank_only_on_session_end(DriverState::Idle, DriverEvent::Slept);
    let a1 = step_spec(DriverState::Streaming, DriverEvent::StreamItemError).1;
    let a2 = step_spec(DriverState::Idle, DriverEvent::Slept).1;
    assert(acts =~= (Seq::<DriverAction>::empty() + a1) + a2);
    lemma_blank_count_add(Seq::<DriverAction>::empty() + a1, a2);
    lemma_blank_count_add(Seq::<DriverAction>::empty(), a1);
}

/// Blank records counted over appended action lists add up.
pub proof fn lemma_blank_count_add(a: Seq<DriverAction>, b: Seq<DriverAction>)
    ensures
        blank_count(a + b) == blank_count(a) + blank_count(b),
    decreases b.len(),
{
    if b.len() == 0 {
        assert(a + b =~= a);
    } else {
        lemma_blank_count_add(a, b.drop_last());
        assert((a + b).drop_last() =~= a + b.drop_last());
        assert((a + b).last() == b.last());
    }
}

} // verus!
