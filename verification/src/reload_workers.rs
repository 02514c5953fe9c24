//! The scheduled reloader: at each trigger it asks the pool manager whether
//! a reload may start, then looks a limited number of times for a moment at
//! which no pyramid is being built, and reloads the workers at the first
//! such moment.
use vstd::prelude::*;
use crate::workers::WorkerState;

verus! {

/// Seconds in `hours` hours.
pub fn from_hours(hours: u64) -> (secs: u64)
    requires
        hours * 3600 <= u64::MAX,
    ensures
        secs == hours * 3600,
{
    hours * 3600
}

/// Seconds in `minutes` minutes.
pub fn from_minutes(minutes: u64) -> (secs: u64)
    requires
        minutes * 60 <= u64::MAX,
    ensures
        secs == minutes * 60,
{
    minutes * 60
}

/// Where the reloader stands within one period.
#[derive(Debug, Clone, Copy, PartialEq, Eq, Structural)]
pub enum ReloadState {
    /// Between two triggers.
    Idle,
    /// The pool manager is being asked for its state.
    Asking,
    /// The pyramid tracker is being looked at; `attempt` counts from zero.
    Checking { attempt: u64 },
}

/// What the reloader learned.
#[derive(Debug, Clone, Copy, PartialEq, Eq, Structural)]
pub enum ReloadEvent {
    /// The calendar trigger fired.
    Trigger,
    /// The pool manager answered.
    State { state: WorkerState },
    /// The pool manager did not answer.
    StateUnknown,
    /// The pyramid tracker was read: whether a pyramid is being built.
    Pyramids { running: bool },
    /// The pyramid tracker could not be read.
    CheckFailed,
}

/// What the reloader does next.
#[derive(Debug, Clone, Copy, PartialEq, Eq, Structural)]
pub enum ReloadAction {
    /// Ask the pool manager for its state.
    AskState,
    /// Look at the pyramid tracker: at once, or after the interval between
    /// two attempts where `wait` is set.
    CheckPyramids { wait: bool },
    /// Tell the pool manager to reload the workers.
    Reload,
    /// Nothing until the next trigger.
    Rest,
}

/// The step after a look at the pyramid tracker that found a pyramid being
/// built, or found nothing out: the next attempt while one is left.
pub open spec fn next_attempt(attempt: u64, attempts: u64) -> (ReloadState, ReloadAction) {
    if attempt + 1 < attempts {
        (
            ReloadState::Checking { attempt: (attempt + 1) as u64 },
            ReloadAction::CheckPyramids { wait: true },
        )
    } else {
        (ReloadState::Idle, ReloadAction::Rest)
    }
}

/// One step of the reloader, with `attempts` looks at the pyramid tracker
/// allowed per period.
pub open spec fn reload_next(state: ReloadState, event: ReloadEvent, attempts: u64) -> (
    ReloadState,
    ReloadAction,
) {
    match (state, event) {
        (ReloadState::Idle, ReloadEvent::Trigger) => (ReloadState::Asking, ReloadAction::AskState),
        (ReloadState::Asking, ReloadEvent::State { state: WorkerState::Reloading }) => (
            ReloadState::Idle,
            ReloadAction::Rest,
        ),
        (ReloadState::Asking, ReloadEvent::State { state: WorkerState::Running }) | (
            ReloadState::Asking,
            ReloadEvent::StateUnknown,
        ) => if attempts > 0 {
            (ReloadState::Checking { attempt: 0 }, ReloadAction::CheckPyramids { wait: false })
        } else {
            (ReloadState::Idle, ReloadAction::Rest)
        },
        (ReloadState::Checking { attempt }, ReloadEvent::Pyramids { running: false }) => (
            ReloadState::Idle,
            ReloadAction::Reload,
        ),
        (ReloadState::Checking { attempt }, ReloadEvent::Pyramids { running: true }) | (
            ReloadState::Checking { attempt },
            ReloadEvent::CheckFailed,
        ) => next_attempt(attempt, attempts),
        _ => (state, ReloadAction::Rest),
    }
}

/// One step of the reloader.
pub fn reload_step(state: ReloadState, event: ReloadEvent, attempts: u64) -> (r: (
    ReloadState,
    ReloadAction,
))
    ensures
        r == reload_next(state, event, attempts),
{
    match state {
        ReloadState::Idle => match event {
            ReloadEvent::Trigger => (ReloadState::Asking, ReloadAction::AskState),
            _ => (state, ReloadAction::Rest),
        },
        ReloadState::Asking => match event {
            ReloadEvent::State { state: WorkerState::Reloading } => (
                ReloadState::Idle,
                ReloadAction::Rest,
            ),
            ReloadEvent::State { state: WorkerState::Running } | ReloadEvent::StateUnknown => {
                if attempts > 0 {
                    (
                        ReloadState::Checking { attempt: 0 },
                        ReloadAction::CheckPyramids { wait: false },
                    )
                } else {
                    (ReloadState::Idle, ReloadAction::Rest)
                }
            },
            _ => (state, ReloadAction::Rest),
        },
        ReloadState::Checking { attempt } => match event {
            ReloadEvent::Pyramids { running: false } => (ReloadState::Idle, ReloadAction::Reload),
            ReloadEvent::Pyramids { running: true } | ReloadEvent::CheckFailed => {
                if attempt < u64::MAX && attempt + 1 < attempts {
                    (
                        ReloadState::Checking { attempt: attempt + 1 },
                        ReloadAction::CheckPyramids { wait: true },
                    )
                } else {
                    (ReloadState::Idle, ReloadAction::Rest)
                }
            },
            _ => (state, ReloadAction::Rest),
        },
    }
}

/// The workers are reloaded only at a look that found no pyramid being
/// built; a pool that says it is reloading is left alone for the period;
/// and a period has no more looks than are allowed.
pub proof fn lemma_reload_is_safe(state: ReloadState, event: ReloadEvent, attempts: u64)
    ensures
        reload_next(state, event, attempts).1 == ReloadAction::Reload ==> state is Checking
            && event == (ReloadEvent::Pyramids { running: false }),
        reload_next(
            ReloadState::Asking,
            ReloadEvent::State { state: WorkerState::Reloading },
            attempts,
        ) == (ReloadState::Idle, ReloadAction::Rest),
        reload_next(state, event, attempts).0 matches ReloadState::Checking { attempt } ==> attempt
            < attempts || state == (ReloadState::Checking { attempt }),
{
}

} // verus!
