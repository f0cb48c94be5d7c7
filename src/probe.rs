//! The flipper verification protocol, as a state machine that the host drives.
//!
//! A submitted program passes when its read operation, called before and after
//! its toggle operation, reports two different states. The engine decides each
//! step; the host performs the remote call that the step asks for and hands
//! the outcome back as a `ProbeEvent`.

use vstd::prelude::*;

use ink_env::Error as HostError;

verus! {

/// The failure of a remote call, as the host environment reports it.
#[verifier::external_type_specification]
#[verifier::external_body]
pub struct ExHostError(HostError);

/// How a verification ended.
#[derive(Debug, Clone, Copy, PartialEq, Eq, Structural)]
pub enum Verdict {
    /// The two reads differ: the program toggles its state.
    Pass,
    /// One of the three remote calls failed.
    CallFailed,
    /// Both reads report the same state.
    StateUnchanged,
}

/// The outcome of the remote call that the previous step asked for.
#[derive(Debug, Clone, Copy, PartialEq, Eq, Structural)]
pub enum ProbeEvent {
    /// The read operation returned this state.
    Read(bool),
    /// The toggle operation returned.
    Toggled,
    /// The remote call failed.
    CallFailed,
}

/// What the host must do next.
#[derive(Debug, Clone, Copy, PartialEq, Eq, Structural)]
pub enum ProbeAction {
    /// Call the program's read operation.
    CallRead,
    /// Call the program's toggle operation.
    CallToggle,
    /// Stop: the verification has ended with this verdict.
    Finish(Verdict),
}

/// Where a verification stands.
#[derive(Debug, Clone, Copy, PartialEq, Eq, Structural)]
pub enum ProbeState {
    /// The first read is due.
    Start,
    /// The first read returned `before`; the toggle is due.
    ReadBefore { before: bool },
    /// The toggle returned; the second read is due.
    Toggled { before: bool },
    /// The verification has ended.
    Done,
}

/// The verdict on a program whose reads around the toggle gave `before` and
/// `after`.
pub open spec fn flipper_verdict(before: bool, after: bool) -> Verdict {
    if before != after {
        Verdict::Pass
    } else {
        Verdict::StateUnchanged
    }
}

/// One step of the protocol: the next state and the next action, given the
/// outcome of the call that was due. An outcome that does not answer the call
/// that was due ends the verification as a failed call.
pub open spec fn probe_next(state: ProbeState, event: ProbeEvent) -> (ProbeState, ProbeAction) {
    match (state, event) {
        (ProbeState::Start, ProbeEvent::Read(before)) => (
            ProbeState::ReadBefore { before },
            ProbeAction::CallToggle,
        ),
        (ProbeState::ReadBefore { before }, ProbeEvent::Toggled) => (
            ProbeState::Toggled { before },
            ProbeAction::CallRead,
        ),
        (ProbeState::Toggled { before }, ProbeEvent::Read(after)) => (
            ProbeState::Done,
            ProbeAction::Finish(flipper_verdict(before, after)),
        ),
        _ => (ProbeState::Done, ProbeAction::Finish(Verdict::CallFailed)),
    }
}

/// The state and the last action after feeding `events` to the protocol from
/// its start.
pub open spec fn probe_run(events: Seq<ProbeEvent>) -> (ProbeState, ProbeAction)
    decreases events.len(),
{
    if events.len() == 0 {
        (ProbeState::Start, ProbeAction::CallRead)
    } else {
        probe_next(probe_run(events.drop_last()).0, events.last())
    }
}

/// The state in which every verification begins, and the call it asks for
/// first.
pub fn probe_start() -> (r: (ProbeState, ProbeAction))
    ensures
        r == probe_run(Seq::empty()),
{
    (ProbeState::Start, ProbeAction::CallRead)
}

/// Advances the protocol by one remote call outcome.
pub fn probe_step(state: ProbeState, event: ProbeEvent) -> (r: (ProbeState, ProbeAction))
    ensures
        r == probe_next(state, event),
{
    match (state, event) {
        (ProbeState::Start, ProbeEvent::Read(before)) => (
            ProbeState::ReadBefore { before },
            ProbeAction::CallToggle,
        ),
        (ProbeState::ReadBefore { before }, ProbeEvent::Toggled) => (
            ProbeState::Toggled { before },
            ProbeAction::CallRead,
        ),
        (ProbeState::Toggled { before }, ProbeEvent::Read(after)) => {
            let verdict = if before != after {
                Verdict::Pass
            } else {
                Verdict::StateUnchanged
            };
            (ProbeState::Done, ProbeAction::Finish(verdict))
        },
        _ => (ProbeState::Done, ProbeAction::Finish(Verdict::CallFailed)),
    }
}

/// The event for a finished call of the read operation: the state it
/// returned, or a failed call.
pub fn read_event(return_value: &Result<bool, HostError>) -> (r: ProbeEvent)
    ensures
        r == (match return_value {
            Ok(state) => ProbeEvent::Read(*state),
            Err(_) => ProbeEvent::CallFailed,
        }),
{
    match return_value {
        Ok(state) => ProbeEvent::Read(*state),
        Err(_) => ProbeEvent::CallFailed,
    }
}

/// The event for a finished call of the toggle operation.
pub fn toggle_event(return_value: &Result<(), HostError>) -> (r: ProbeEvent)
    ensures
        r == (match return_value {
            Ok(_) => ProbeEvent::Toggled,
            Err(_) => ProbeEvent::CallFailed,
        }),
{
    match return_value {
        Ok(_) => ProbeEvent::Toggled,
        Err(_) => ProbeEvent::CallFailed,
    }
}

} // verus!
