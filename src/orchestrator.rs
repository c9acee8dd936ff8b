//! One scraping run as a state machine: acquire a session, query, extract,
//! and release the session on every way out, retrying only what may pass on
//! a second try.

use vstd::prelude::*;
use crate::error::ScrapeError;

verus! {

/// Which path a run takes; the two surface different records.
#[derive(PartialEq, Eq, Structural, Clone, Copy, Debug)]
pub enum Mode {
    /// Drive a real browser and read the rendered page.
    Browser,
    /// Replay the site's session handshake and call its search endpoint.
    Http,
}

/// The stage of a run at which something failed.
#[derive(PartialEq, Eq, Structural, Clone, Copy, Debug)]
pub enum Stage {
    SessionAcquiring,
    Querying,
    Extracting,
}

/// Why a step of a run failed.
#[derive(PartialEq, Eq, Structural, Clone, Copy, Debug)]
pub enum Failure {
    /// A bad endpoint or path; fatal.
    Config,
    /// A connection reset or a timeout; worth another try.
    TransientNetwork,
    /// The driver process could not be started or stopped; fatal.
    Resource,
    /// The page or the response is not shaped as expected; fatal.
    Shape(ScrapeError),
}

/// Whether another try may cure `failure`.
pub open spec fn is_transient(failure: Failure) -> bool {
    failure is TransientNetwork
}

/// How a finished run ended.
#[derive(PartialEq, Eq, Structural, Clone, Copy, Debug)]
pub enum Outcome {
    Success,
    Failed(Stage, Failure),
}

/// Where a run stands.
#[derive(PartialEq, Eq, Structural, Clone, Copy, Debug)]
pub enum RunPhase {
    Idle,
    /// Acquiring the session, after this many failed tries.
    Acquiring(u32),
    /// Querying, after this many failed tries.
    Querying(u32),
    Extracting,
    /// Releasing the session before the run ends as said.
    Releasing(Outcome),
    Done,
    Failed(Stage, Failure),
}

/// What happened in a run, as the caller reports it.
#[derive(PartialEq, Eq, Structural, Clone, Copy, Debug)]
pub enum RunEvent {
    Begin,
    Acquired,
    AcquireFailed(Failure),
    Queried,
    QueryFailed(Failure),
    Extracted,
    ExtractFailed(Failure),
    Released,
}

/// What the caller must do next.
#[derive(PartialEq, Eq, Structural, Clone, Copy, Debug)]
pub enum RunAction {
    Nothing,
    Acquire,
    /// Back off, then acquire again.
    RetryAcquire,
    Query,
    /// Back off, then query again.
    RetryQuery,
    Extract,
    /// Release the session: quit the browser and stop the driver, or drop
    /// the HTTP session.
    Release,
    /// The run is over; hand its outcome back.
    Return,
}

/// The phases in which the run may hold a session or a driver process.
pub open spec fn holds_session(phase: RunPhase) -> bool {
    phase is Acquiring || phase is Querying || phase is Extracting
}

/// The phases in which the run is over.
pub open spec fn is_finished(phase: RunPhase) -> bool {
    phase is Done || phase is Failed
}

/// Whether a try that failed with `failure`, after `tries` earlier failed
/// tries, is followed by another, where `max_tries` tries are allowed.
pub open spec fn retries(failure: Failure, tries: u32, max_tries: u32) -> bool {
    is_transient(failure) && tries + 1 < max_tries
}

/// The phase that `event` leads to from `phase`, and the action it asks for,
/// where each stage may be tried `max_tries` times.
pub open spec fn run_step(phase: RunPhase, max_tries: u32, event: RunEvent) -> (RunPhase, RunAction) {
    match (phase, event) {
        (RunPhase::Idle, RunEvent::Begin) => (RunPhase::Acquiring(0), RunAction::Acquire),
        (RunPhase::Acquiring(_), RunEvent::Acquired) => (RunPhase::Querying(0), RunAction::Query),
        (RunPhase::Acquiring(n), RunEvent::AcquireFailed(f)) => if retries(f, n, max_tries) {
            (RunPhase::Acquiring((n + 1) as u32), RunAction::RetryAcquire)
        } else {
            (RunPhase::Releasing(Outcome::Failed(Stage::SessionAcquiring, f)), RunAction::Release)
        },
        (RunPhase::Querying(_), RunEvent::Queried) => (RunPhase::Extracting, RunAction::Extract),
        (RunPhase::Querying(n), RunEvent::QueryFailed(f)) => if retries(f, n, max_tries) {
            (RunPhase::Querying((n + 1) as u32), RunAction::RetryQuery)
        } else {
            (RunPhase::Releasing(Outcome::Failed(Stage::Querying, f)), RunAction::Release)
        },
        (RunPhase::Extracting, RunEvent::Extracted) => (RunPhase::Releasing(Outcome::Success), RunAction::Release),
        (RunPhase::Extracting, RunEvent::ExtractFailed(f)) => (
            RunPhase::Releasing(Outcome::Failed(Stage::Extracting, f)),
            RunAction::Release,
        ),
        (RunPhase::Releasing(Outcome::Success), RunEvent::Released) => (RunPhase::Done, RunAction::Return),
        (RunPhase::Releasing(Outcome::Failed(stage, f)), RunEvent::Released) => (
            RunPhase::Failed(stage, f),
            RunAction::Return,
        ),
        _ => (phase, RunAction::Nothing),
    }
}

/// One scraping run.
#[derive(Debug)]
pub struct ScrapeRun {
    pub mode: Mode,
    pub phase: RunPhase,
    /// How often each stage may be tried.
    pub max_tries: u32,
}

impl ScrapeRun {
    /// A run on the path `mode` that has not begun.
    pub fn new(mode: Mode, max_tries: u32) -> (r: ScrapeRun)
        ensures
            r.mode == mode,
            r.phase == RunPhase::Idle,
            r.max_tries == max_tries,
    {
        ScrapeRun { mode, phase: RunPhase::Idle, max_tries }
    }

    /// Whether a try that failed with `failure`, after `tries` earlier failed
    /// tries, is followed by another.
    fn retries(&self, failure: Failure, tries: u32) -> (r: bool)
        ensures
            r == retries(failure, tries, self.max_tries),
    {
        match failure {
            Failure::TransientNetwork => (tries as u64) + 1 < self.max_tries as u64,
            _ => false,
        }
    }

    /// Takes in `event` and says what the caller must do next.
    pub fn handle(&mut self, event: RunEvent) -> (r: RunAction)
        ensures
            (final(self).phase, r) == run_step(old(self).phase, old(self).max_tries, event),
            final(self).max_tries == old(self).max_tries,
            final(self).mode == old(self).mode,
    {
        let (phase, action) = match (self.phase, event) {
            (RunPhase::Idle, RunEvent::Begin) => (RunPhase::Acquiring(0), RunAction::Acquire),
            (RunPhase::Acquiring(_), RunEvent::Acquired) => (RunPhase::Querying(0), RunAction::Query),
            (RunPhase::Acquiring(n), RunEvent::AcquireFailed(f)) => if self.retries(f, n) {
                (RunPhase::Acquiring(n + 1), RunAction::RetryAcquire)
            } else {
                (RunPhase::Releasing(Outcome::Failed(Stage::SessionAcquiring, f)), RunAction::Release)
            },
            (RunPhase::Querying(_), RunEvent::Queried) => (RunPhase::Extracting, RunAction::Extract),
            (RunPhase::Querying(n), RunEvent::QueryFailed(f)) => if self.retries(f, n) {
                (RunPhase::Querying(n + 1), RunAction::RetryQuery)
            } else {
                (RunPhase::Releasing(Outcome::Failed(Stage::Querying, f)), RunAction::Release)
            },
            (RunPhase::Extracting, RunEvent::Extracted) => (
                RunPhase::Releasing(Outcome::Success),
                RunAction::Release,
            ),
            (RunPhase::Extracting, RunEvent::ExtractFailed(f)) => (
                RunPhase::Releasing(Outcome::Failed(Stage::Extracting, f)),
                RunAction::Release,
            ),
            (RunPhase::Releasing(Outcome::Success), RunEvent::Released) => (
                RunPhase::Done,
                RunAction::Return,
            ),
            (RunPhase::Releasing(Outcome::Failed(stage, f)), RunEvent::Released) => (
                RunPhase::Failed(stage, f),
                RunAction::Return,
            ),
            (phase, _) => (phase, RunAction::Nothing),
        };
        self.phase = phase;
        action
    }
}

/// A run leaves the phases that may hold a session only by asking for the
/// session's release: no way out, failure included, skips it.
pub proof fn lemma_session_left_only_by_release(phase: RunPhase, max_tries: u32, event: RunEvent)
    ensures
        ({
            let (next, action) = run_step(phase, max_tries, event);
            holds_session(phase) && !holds_session(next) ==> next is Releasing && action
                == RunAction::Release
        }),
{
}

/// A run ends, and hands its outcome back, only once the release it asked
/// for has been reported done.
pub proof fn lemma_finished_only_after_release(phase: RunPhase, max_tries: u32, event: RunEvent)
    ensures
        ({
            let (next, action) = run_step(phase, max_tries, event);
            !is_finished(phase) && is_finished(next) ==> phase is Releasing && event
                == RunEvent::Released && action == RunAction::Return
        }),
{
}

/// Only a transient failure is tried again; any other surfaces unchanged.
pub proof fn lemma_only_transient_failures_retried(phase: RunPhase, max_tries: u32, event: RunEvent)
    ensures
        ({
            let action = run_step(phase, max_tries, event).1;
            action == RunAction::RetryAcquire || action == RunAction::RetryQuery ==> match event {
                RunEvent::AcquireFailed(f) => is_transient(f),
                RunEvent::QueryFailed(f) => is_transient(f),
                _ => false,
            }
        }),
{
}

/// A navigation that fails for good in the middle of a run releases the
/// session, and so stops the driver, before the run ends with that failure.
pub proof fn lemma_query_failure_releases_first(tries: u32, max_tries: u32, failure: Failure)
    requires
        !retries(failure, tries, max_tries),
    ensures
        run_step(RunPhase::Querying(tries), max_tries, RunEvent::QueryFailed(failure)) == (
            RunPhase::Releasing(Outcome::Failed(Stage::Querying, failure)),
            RunAction::Release,
        ),
        run_step(
            RunPhase::Releasing(Outcome::Failed(Stage::Querying, failure)),
            max_tries,
            RunEvent::Released,
        ) == (RunPhase::Failed(Stage::Querying, failure), RunAction::Return),
{
}

} // verus!
