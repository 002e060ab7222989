//! The process-wide readiness flag that every subsystem observes.
//!
//! The flag is a plain value here. A running process shares one copy behind
//! whatever atomic it likes; the transitions it may apply are the ones below,
//! and the laws at the end of the file hold of every sequence of them.

use vstd::prelude::*;

verus! {

/// The three phases of a process. They are reached in declaration order and
/// never left towards an earlier one.
#[derive(Clone, Copy, Debug, PartialEq, Eq, Structural)]
pub enum ApplicationState {
    Uninitialized,
    Initialized,
    ShuttingDown,
}

/// What can happen to the flag.
#[derive(Clone, Copy, Debug, PartialEq, Eq, Structural)]
pub enum LifecycleEvent {
    /// The coordinator has finished construction and starts the subsystems.
    Initialize,
    /// The shutdown signal arrived.
    Shutdown,
}

impl ApplicationState {
    /// Position of the phase in the lifecycle.
    pub open spec fn rank(self) -> nat {
        match self {
            ApplicationState::Uninitialized => 0,
            ApplicationState::Initialized => 1,
            ApplicationState::ShuttingDown => 2,
        }
    }

    /// The phase that follows `self` when `event` happens.
    pub open spec fn after(self, event: LifecycleEvent) -> ApplicationState {
        match event {
            LifecycleEvent::Initialize => match self {
                ApplicationState::Uninitialized => ApplicationState::Initialized,
                _ => self,
            },
            LifecycleEvent::Shutdown => ApplicationState::ShuttingDown,
        }
    }

    /// The phase reached from `self` after `events`, oldest first.
    pub open spec fn after_all(self, events: Seq<LifecycleEvent>) -> ApplicationState
        decreases events.len(),
    {
        if events.len() == 0 {
            self
        } else {
            self.after_all(events.drop_last()).after(events.last())
        }
    }

    /// Whether a liveness probe answered in this phase reports the process
    /// as healthy.
    pub open spec fn healthy(self) -> bool {
        self == ApplicationState::Initialized
    }

    /// The state of a process that has not been started yet.
    pub fn create_un_initialized() -> (state: Self)
        ensures
            state == ApplicationState::Uninitialized,
    {
        ApplicationState::Uninitialized
    }

    /// Applies one event.
    pub fn apply(&mut self, event: LifecycleEvent)
        ensures
            *final(self) == old(self).after(event),
    {
        match event {
            LifecycleEvent::Initialize => self.set_initialized(),
            LifecycleEvent::Shutdown => self.set_shutting_down(),
        }
    }

    /// Marks the process as initialized. A process that is already shutting
    /// down stays so.
    pub fn set_initialized(&mut self)
        ensures
            *final(self) == old(self).after(LifecycleEvent::Initialize),
    {
        match *self {
            ApplicationState::Uninitialized => {
                *self = ApplicationState::Initialized;
            },
            _ => {},
        }
    }

    /// Marks the process as shutting down. There is no way back.
    pub fn set_shutting_down(&mut self)
        ensures
            *final(self) == ApplicationState::ShuttingDown,
            *final(self) == old(self).after(LifecycleEvent::Shutdown),
    {
        *self = ApplicationState::ShuttingDown;
    }

    /// True from the start of the subsystems until the shutdown signal.
    pub fn is_initialized(&self) -> (yes: bool)
        ensures
            yes == (*self == ApplicationState::Initialized),
            yes == self.healthy(),
    {
        match self {
            ApplicationState::Initialized => true,
            _ => false,
        }
    }

    /// True once the shutdown signal has arrived.
    pub fn is_shutting_down(&self) -> (yes: bool)
        ensures
            yes == (*self == ApplicationState::ShuttingDown),
    {
        match self {
            ApplicationState::ShuttingDown => true,
            _ => false,
        }
    }
}

/// No event moves the flag to an earlier phase.
pub proof fn lemma_event_never_goes_back(state: ApplicationState, event: LifecycleEvent)
    ensures
        state.rank() <= state.after(event).rank(),
{
}

/// No sequence of events moves the flag to an earlier phase.
pub proof fn lemma_events_never_go_back(state: ApplicationState, events: Seq<LifecycleEvent>)
    ensures
        state.rank() <= state.after_all(events).rank(),
    decreases events.len(),
{
    if events.len() > 0 {
        lemma_events_never_go_back(state, events.drop_last());
        lemma_event_never_goes_back(state.after_all(events.drop_last()), events.last());
    }
}

/// Applying `first` and then `then` is applying their concatenation.
pub proof fn lemma_after_all_concat(
    state: ApplicationState,
    first: Seq<LifecycleEvent>,
    then: Seq<LifecycleEvent>,
)
    ensures
        state.after_all(first + then) == state.after_all(first).after_all(then),
    decreases then.len(),
{
    if then.len() == 0 {
        assert(first + then =~= first);
    } else {
        lemma_after_all_concat(state, first, then.drop_last());
        assert((first + then).drop_last() =~= first + then.drop_last());
        assert((first + then).last() == then.last());
    }
}

/// Shutdown is terminal: once the flag reads `ShuttingDown` after some
/// events, it reads `ShuttingDown` after any further events as well, so
/// neither `Initialized` nor `Uninitialized` is ever observed again.
pub proof fn lemma_shutdown_is_terminal(
    state: ApplicationState,
    observed: Seq<LifecycleEvent>,
    later: Seq<LifecycleEvent>,
)
    requires
        state.after_all(observed) == ApplicationState::ShuttingDown,
    ensures
        state.after_all(observed + later) == ApplicationState::ShuttingDown,
{
    lemma_after_all_concat(state, observed, later);
    lemma_events_never_go_back(ApplicationState::ShuttingDown, later);
}

/// A process is healthy exactly between initialization and shutdown: never
/// before the flag leaves `Uninitialized`, and always while it reads
/// `Initialized`.
pub proof fn lemma_healthy_only_while_initialized(state: ApplicationState)
    ensures
        state == ApplicationState::Uninitialized ==> !state.healthy(),
        state == ApplicationState::Initialized ==> state.healthy(),
        state == ApplicationState::ShuttingDown ==> !state.healthy(),
{
}

} // verus!
