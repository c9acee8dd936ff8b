//! The life of the external browser driver process: whether one is already
//! listening, launching one, waiting until it answers, and releasing the
//! driver this run launched or reused exactly once.

use vstd::prelude::*;

verus! {

/// Why the driver could not be brought up.
#[derive(PartialEq, Eq, Structural, Clone, Copy, Debug)]
pub enum StartFailure {
    /// The driver program could not be launched.
    SpawnFailed,
    /// The launched driver did not answer within the allowed polls.
    Timeout,
}

/// Where the driver stands.
#[derive(PartialEq, Eq, Structural, Clone, Copy, Debug)]
pub enum DriverPhase {
    /// Nothing started yet.
    Idle,
    /// Asking the status endpoint whether a driver already listens.
    Probing,
    /// The driver program is being launched.
    Launching,
    /// The launched driver was polled this many times without answering.
    Polling(u32),
    /// A driver answers; `true` where this supervisor launched it.
    Ready(bool),
    /// Stopped; a launch still under way when the stop came is terminated
    /// once it reports success.
    Stopped,
    /// The start failed; whatever was launched has been terminated.
    Failed(StartFailure),
}

/// What happened to the driver, as the caller reports it.
#[derive(PartialEq, Eq, Structural, Clone, Copy, Debug)]
pub enum DriverEvent {
    /// The caller asks for a running driver.
    Start,
    /// The status endpoint answered (`true`: ready) or did not (`false`).
    Status(bool),
    /// Launching the driver program succeeded or failed.
    Spawned(bool),
    /// The caller is done with the driver.
    Stop,
}

/// What the caller must do next.
#[derive(PartialEq, Eq, Structural, Clone, Copy, Debug)]
pub enum DriverAction {
    Nothing,
    /// Ask the status endpoint now.
    ProbeStatus,
    /// Launch the driver program.
    Spawn,
    /// Wait one poll interval, then ask the status endpoint.
    WaitThenProbe,
    /// Release the driver process: kill it where this supervisor launched
    /// it, or ask it through its endpoint to shut down where it was reused.
    Terminate,
}

/// The phases in which this supervisor answers for a live driver process,
/// whether it launched the process or reused it.
pub open spec fn owns_process(phase: DriverPhase) -> bool {
    phase is Polling || phase is Ready
}

/// The phase that `event` leads to from `phase`, and the action it asks for,
/// where the launched driver may be polled `max_polls` times.
pub open spec fn driver_step(phase: DriverPhase, max_polls: u32, event: DriverEvent) -> (DriverPhase, DriverAction) {
    match (phase, event) {
        (DriverPhase::Idle, DriverEvent::Start)
        | (DriverPhase::Stopped, DriverEvent::Start)
        | (DriverPhase::Failed(_), DriverEvent::Start) => (DriverPhase::Probing, DriverAction::ProbeStatus),
        (DriverPhase::Probing, DriverEvent::Status(ready)) => if ready {
            (DriverPhase::Ready(false), DriverAction::Nothing)
        } else {
            (DriverPhase::Launching, DriverAction::Spawn)
        },
        (DriverPhase::Launching, DriverEvent::Spawned(ok)) => if ok {
            (DriverPhase::Polling(0), DriverAction::WaitThenProbe)
        } else {
            (DriverPhase::Failed(StartFailure::SpawnFailed), DriverAction::Nothing)
        },
        (DriverPhase::Polling(n), DriverEvent::Status(ready)) => if ready {
            (DriverPhase::Ready(true), DriverAction::Nothing)
        } else if n + 1 < max_polls {
            (DriverPhase::Polling((n + 1) as u32), DriverAction::WaitThenProbe)
        } else {
            (DriverPhase::Failed(StartFailure::Timeout), DriverAction::Terminate)
        },
        (DriverPhase::Polling(_), DriverEvent::Stop)
        | (DriverPhase::Ready(_), DriverEvent::Stop) => (DriverPhase::Stopped, DriverAction::Terminate),
        (DriverPhase::Probing, DriverEvent::Stop)
        | (DriverPhase::Launching, DriverEvent::Stop) => (DriverPhase::Stopped, DriverAction::Nothing),
        (DriverPhase::Stopped, DriverEvent::Spawned(ok)) => (
            DriverPhase::Stopped,
            if ok {
                DriverAction::Terminate
            } else {
                DriverAction::Nothing
            },
        ),
        _ => (phase, DriverAction::Nothing),
    }
}

/// Supervises one driver process for one run.
#[derive(Debug)]
pub struct DriverSupervisor {
    pub phase: DriverPhase,
    /// How often a launched driver is polled before the start times out.
    pub max_polls: u32,
}

impl DriverSupervisor {
    /// A supervisor that has started nothing.
    pub fn new(max_polls: u32) -> (r: DriverSupervisor)
        ensures
            r.phase == DriverPhase::Idle,
            r.max_polls == max_polls,
    {
        DriverSupervisor { phase: DriverPhase::Idle, max_polls }
    }

    /// Takes in `event` and says what the caller must do next.
    pub fn handle(&mut self, event: DriverEvent) -> (r: DriverAction)
        ensures
            (final(self).phase, r) == driver_step(old(self).phase, old(self).max_polls, event),
            final(self).max_polls == old(self).max_polls,
    {
        let (phase, action) = match (self.phase, event) {
            (DriverPhase::Idle, DriverEvent::Start)
            | (DriverPhase::Stopped, DriverEvent::Start)
            | (DriverPhase::Failed(_), DriverEvent::Start) => (DriverPhase::Probing, DriverAction::ProbeStatus),
            (DriverPhase::Probing, DriverEvent::Status(ready)) => if ready {
                (DriverPhase::Ready(false), DriverAction::Nothing)
            } else {
                (DriverPhase::Launching, DriverAction::Spawn)
            },
            (DriverPhase::Launching, DriverEvent::Spawned(ok)) => if ok {
                (DriverPhase::Polling(0), DriverAction::WaitThenProbe)
            } else {
                (DriverPhase::Failed(StartFailure::SpawnFailed), DriverAction::Nothing)
            },
            (DriverPhase::Polling(n), DriverEvent::Status(ready)) => if ready {
                (DriverPhase::Ready(true), DriverAction::Nothing)
            } else if (n as u64) + 1 < self.max_polls as u64 {
                (DriverPhase::Polling(n + 1), DriverAction::WaitThenProbe)
            } else {
                (DriverPhase::Failed(StartFailure::Timeout), DriverAction::Terminate)
            },
            (DriverPhase::Polling(_), DriverEvent::Stop)
            | (DriverPhase::Ready(_), DriverEvent::Stop) => (DriverPhase::Stopped, DriverAction::Terminate),
            (DriverPhase::Probing, DriverEvent::Stop)
            | (DriverPhase::Launching, DriverEvent::Stop) => (DriverPhase::Stopped, DriverAction::Nothing),
            (DriverPhase::Stopped, DriverEvent::Spawned(ok)) => (
                DriverPhase::Stopped,
                if ok {
                    DriverAction::Terminate
                } else {
                    DriverAction::Nothing
                },
            ),
            (phase, _) => (phase, DriverAction::Nothing),
        };
        self.phase = phase;
        action
    }

    /// Asks for a running driver.
    pub fn start(&mut self) -> (r: DriverAction)
        ensures
            (final(self).phase, r) == driver_step(old(self).phase, old(self).max_polls, DriverEvent::Start),
            final(self).max_polls == old(self).max_polls,
    {
        self.handle(DriverEvent::Start)
    }

    /// Gives the driver up; asks for termination where this supervisor
    /// launched a process that is still alive.
    pub fn stop(&mut self) -> (r: DriverAction)
        ensures
            (final(self).phase, r) == driver_step(old(self).phase, old(self).max_polls, DriverEvent::Stop),
            final(self).max_polls == old(self).max_polls,
    {
        self.handle(DriverEvent::Stop)
    }
}

/// A step asks for termination exactly when it ends this supervisor's
/// answer for a live process, or when a launch that was under way at the stop
/// reports success: every such process is terminated once, and nothing else
/// is.
pub proof fn lemma_terminate_iff_released(phase: DriverPhase, max_polls: u32, event: DriverEvent)
    ensures
        driver_step(phase, max_polls, event).1 == DriverAction::Terminate <==> (owns_process(phase)
            && !owns_process(driver_step(phase, max_polls, event).0)) || (phase
            == DriverPhase::Stopped && event == DriverEvent::Spawned(true)),
{
}

/// Stopping a supervisor that has not brought a driver up, whether it never
/// started or its start failed, changes nothing and asks for nothing.
pub proof fn lemma_stop_before_start_is_noop(phase: DriverPhase, max_polls: u32)
    requires
        phase == DriverPhase::Idle || phase is Failed,
    ensures
        driver_step(phase, max_polls, DriverEvent::Stop) == (phase, DriverAction::Nothing),
{
}

/// Stopping twice after a successful start, whether the driver was launched
/// or reused, releases it on the first call only; the second call asks for
/// nothing. Neither fails.
pub proof fn lemma_stop_twice_terminates_once(launched: bool, max_polls: u32)
    ensures
        ({
            let (first_phase, first) = driver_step(DriverPhase::Ready(launched), max_polls, DriverEvent::Stop);
            let (second_phase, second) = driver_step(first_phase, max_polls, DriverEvent::Stop);
            &&& first == DriverAction::Terminate
            &&& second == DriverAction::Nothing
            &&& first_phase == DriverPhase::Stopped
            &&& second_phase == DriverPhase::Stopped
        }),
{
}

/// A stop that comes while the driver program is being launched ends the
/// start; the launched process is terminated as soon as it is reported.
pub proof fn lemma_stop_during_launch_terminates_late_spawn(max_polls: u32)
    ensures
        driver_step(DriverPhase::Launching, max_polls, DriverEvent::Stop) == (
            DriverPhase::Stopped,
            DriverAction::Nothing,
        ),
        driver_step(DriverPhase::Stopped, max_polls, DriverEvent::Spawned(true)) == (
            DriverPhase::Stopped,
            DriverAction::Terminate,
        ),
{
}

} // verus!
