//! The end of the server: from the first sign of it until the last endpoint is down.
use vstd::prelude::*;

verus! {

/// How far the shutdown has come.
#[derive(Debug, Clone, Copy, PartialEq, Eq, Structural)]
pub enum ShutdownPhase {
    /// The server is up.
    Running,
    /// The endpoints have been told to end, and the deadline runs.
    Draining,
    /// The server may end.
    Finished,
}

/// How an endpoint ended.
#[derive(Debug, Clone, Copy, PartialEq, Eq, Structural)]
pub enum EndpointExit {
    Completed,
    Failed,
    /// Its task was cancelled or panicked.
    Aborted,
}

/// What happens to a server.
#[derive(Debug, Clone, Copy, PartialEq, Eq, Structural)]
pub enum ShutdownEvent {
    /// The shutdown was asked for.
    Signal,
    EndpointEnded(EndpointExit),
    /// There is no endpoint any more.
    NoneLeft,
    /// The time for draining is over.
    DeadlinePassed,
}

/// What the server is to do.
#[derive(Debug, Clone, Copy, PartialEq, Eq, Structural)]
pub enum ShutdownAction {
    /// Wait for the next endpoint to end, or for the deadline, which now starts to run.
    StartDraining,
    /// As before, and tell the other endpoints to end.
    TellAndStartDraining,
    /// Go on waiting for the next endpoint to end, or for the deadline.
    KeepDraining,
    /// Force the remaining endpoints to end.
    ForceClose,
    /// Nothing.
    Return,
}

/// A server on its way down.
#[derive(Debug, Clone, Copy, PartialEq, Eq, Structural)]
pub struct Shutdown {
    pub phase: ShutdownPhase,
    /// How long the endpoints may take, in seconds.
    pub timeout_seconds: u64,
}

/// The event can happen in the phase. While the server is up no deadline runs, and once the endpoints
/// have been told the signal is not waited for any more.
pub open spec fn possible(phase: ShutdownPhase, event: ShutdownEvent) -> bool {
    match phase {
        ShutdownPhase::Running => event != ShutdownEvent::DeadlinePassed,
        ShutdownPhase::Draining => event != ShutdownEvent::Signal,
        ShutdownPhase::Finished => false,
    }
}

/// What follows an event: the next phase and what to do.
pub open spec fn shutdown_step(phase: ShutdownPhase, event: ShutdownEvent) -> (
    ShutdownPhase,
    ShutdownAction,
) {
    match event {
        ShutdownEvent::Signal => (ShutdownPhase::Draining, ShutdownAction::StartDraining),
        ShutdownEvent::EndpointEnded(_) => if phase == ShutdownPhase::Running {
            (ShutdownPhase::Draining, ShutdownAction::TellAndStartDraining)
        } else {
            (ShutdownPhase::Draining, ShutdownAction::KeepDraining)
        },
        ShutdownEvent::NoneLeft => (ShutdownPhase::Finished, ShutdownAction::Return),
        ShutdownEvent::DeadlinePassed => (ShutdownPhase::Finished, ShutdownAction::ForceClose),
    }
}

impl Shutdown {
    /// A server that is up.
    pub fn wait_for_shutdown(timeout_seconds: u64) -> (res: Self)
        ensures
            res.phase == ShutdownPhase::Running,
            res.timeout_seconds == timeout_seconds,
    {
        Shutdown { phase: ShutdownPhase::Running, timeout_seconds }
    }

    /// Takes what happened and says what to do.
    pub fn on_event(&mut self, event: ShutdownEvent) -> (res: ShutdownAction)
        requires
            possible(old(self).phase, event),
        ensures
            final(self).timeout_seconds == old(self).timeout_seconds,
            (final(self).phase, res) == shutdown_step(old(self).phase, event),
    {
        match event {
            ShutdownEvent::Signal => {
                self.phase = ShutdownPhase::Draining;
                ShutdownAction::StartDraining
            },
            ShutdownEvent::EndpointEnded(_) => match self.phase {
                ShutdownPhase::Running => {
                    self.phase = ShutdownPhase::Draining;
                    ShutdownAction::TellAndStartDraining
                },
                _ => {
                    self.phase = ShutdownPhase::Draining;
                    ShutdownAction::KeepDraining
                },
            },
            ShutdownEvent::NoneLeft => {
                self.phase = ShutdownPhase::Finished;
                ShutdownAction::Return
            },
            ShutdownEvent::DeadlinePassed => {
                self.phase = ShutdownPhase::Finished;
                ShutdownAction::ForceClose
            },
        }
    }
}

/// The phase after a series of events, if all of them were possible.
pub open spec fn phase_after(events: Seq<ShutdownEvent>) -> Option<ShutdownPhase>
    decreases events.len(),
{
    if events.len() == 0 {
        Some(ShutdownPhase::Running)
    } else {
        match phase_after(events.drop_last()) {
            Some(phase) => if possible(phase, events.last()) {
                Some(shutdown_step(phase, events.last()).0)
            } else {
                None
            },
            None => None,
        }
    }
}

/// The server stays up until it is told to end or an endpoint ends.
pub proof fn law_nothing_ends_without_a_cause(events: Seq<ShutdownEvent>)
    requires
        phase_after(events) == Some(ShutdownPhase::Draining) || phase_after(events) == Some(
            ShutdownPhase::Finished,
        ),
    ensures
        events.len() > 0,
        events[0] == ShutdownEvent::Signal || events[0] is EndpointEnded || events[0]
            == ShutdownEvent::NoneLeft,
    decreases events.len(),
{
    if events.len() > 1 {
        lemma_running_only_before_events(events.drop_last());
        law_nothing_ends_without_a_cause(events.drop_last());
        assert(events.drop_last()[0] == events[0]);
    } else if events.len() == 1 {
        assert(events.drop_last().len() == 0);
        assert(phase_after(events.drop_last()) == Some(ShutdownPhase::Running));
    }
}

/// After any event the server is not up any more.
proof fn lemma_running_only_before_events(events: Seq<ShutdownEvent>)
    requires
        events.len() > 0,
    ensures
        phase_after(events) != Some(ShutdownPhase::Running),
{
}

/// The endpoints are told to end at most once, and only by the first event.
pub proof fn law_endpoints_are_told_once(events: Seq<ShutdownEvent>, event: ShutdownEvent)
    requires
        phase_after(events) is Some,
        possible(phase_after(events)->0, event),
        shutdown_step(phase_after(events)->0, event).1 == ShutdownAction::TellAndStartDraining,
    ensures
        events.len() == 0,
{
    if events.len() > 0 {
        lemma_running_only_before_events(events);
    }
}

/// A server that drains ends for one of two reasons: all its endpoints have ended, or the time for
/// it is over, and only then is any of them forced to end.
pub proof fn law_force_only_after_the_deadline(phase: ShutdownPhase, event: ShutdownEvent)
    requires
        possible(phase, event),
    ensures
        shutdown_step(phase, event).1 == ShutdownAction::ForceClose <==> event
            == ShutdownEvent::DeadlinePassed,
        shutdown_step(phase, event).0 == ShutdownPhase::Finished <==> event
            == ShutdownEvent::DeadlinePassed || event == ShutdownEvent::NoneLeft,
        event == ShutdownEvent::DeadlinePassed ==> phase == ShutdownPhase::Draining,
{
}

} // verus!
