use animescrape::browser::{browser_args, playback_token, wait_step, WaitStep};
use animescrape::selector::Element;
use animescrape::driver::{DriverAction, DriverEvent, DriverPhase, DriverSupervisor, StartFailure};
use animescrape::error::ScrapeError;
use animescrape::orchestrator::{Failure, Mode, Outcome, RunAction, RunEvent, RunPhase, ScrapeRun, Stage};
use animescrape::text::parse_decimal;

fn launched(max_polls: u32) -> DriverSupervisor {
    let mut d = DriverSupervisor::new(max_polls);
    assert_eq!(d.start(), DriverAction::ProbeStatus);
    assert_eq!(d.handle(DriverEvent::Status(false)), DriverAction::Spawn);
    assert_eq!(d.handle(DriverEvent::Spawned(true)), DriverAction::WaitThenProbe);
    d
}

#[test]
fn stop_before_start_is_noop() {
    let mut d = DriverSupervisor::new(5);
    assert_eq!(d.stop(), DriverAction::Nothing);
    assert_eq!(d.phase, DriverPhase::Idle);
}

#[test]
fn stop_twice_terminates_once() {
    let mut d = launched(5);
    assert_eq!(d.handle(DriverEvent::Status(true)), DriverAction::Nothing);
    assert_eq!(d.phase, DriverPhase::Ready(true));
    assert_eq!(d.stop(), DriverAction::Terminate);
    assert_eq!(d.stop(), DriverAction::Nothing);
    assert_eq!(d.phase, DriverPhase::Stopped);
}

#[test]
fn running_driver_is_reused_and_released_once() {
    let mut d = DriverSupervisor::new(5);
    d.start();
    assert_eq!(d.handle(DriverEvent::Status(true)), DriverAction::Nothing);
    assert_eq!(d.phase, DriverPhase::Ready(false));
    assert_eq!(d.stop(), DriverAction::Terminate);
    assert_eq!(d.stop(), DriverAction::Nothing);
}

#[test]
fn stop_during_launch_terminates_late_spawn() {
    let mut d = DriverSupervisor::new(5);
    d.start();
    assert_eq!(d.handle(DriverEvent::Status(false)), DriverAction::Spawn);
    assert_eq!(d.stop(), DriverAction::Nothing);
    assert_eq!(d.phase, DriverPhase::Stopped);
    assert_eq!(d.handle(DriverEvent::Spawned(true)), DriverAction::Terminate);
    assert_eq!(d.phase, DriverPhase::Stopped);
}

#[test]
fn stop_during_probe_ends_start() {
    let mut d = DriverSupervisor::new(5);
    d.start();
    assert_eq!(d.stop(), DriverAction::Nothing);
    assert_eq!(d.phase, DriverPhase::Stopped);
    assert_eq!(d.handle(DriverEvent::Status(true)), DriverAction::Nothing);
    assert_eq!(d.phase, DriverPhase::Stopped);
}

#[test]
fn start_times_out_and_terminates() {
    let mut d = launched(3);
    assert_eq!(d.handle(DriverEvent::Status(false)), DriverAction::WaitThenProbe);
    assert_eq!(d.handle(DriverEvent::Status(false)), DriverAction::WaitThenProbe);
    assert_eq!(d.handle(DriverEvent::Status(false)), DriverAction::Terminate);
    assert_eq!(d.phase, DriverPhase::Failed(StartFailure::Timeout));
    assert_eq!(d.stop(), DriverAction::Nothing);
}

#[test]
fn spawn_failure_reported() {
    let mut d = DriverSupervisor::new(3);
    d.start();
    d.handle(DriverEvent::Status(false));
    assert_eq!(d.handle(DriverEvent::Spawned(false)), DriverAction::Nothing);
    assert_eq!(d.phase, DriverPhase::Failed(StartFailure::SpawnFailed));
}

#[test]
fn navigation_failure_releases_before_return() {
    let mut run = ScrapeRun::new(Mode::Browser, 2);
    assert_eq!(run.handle(RunEvent::Begin), RunAction::Acquire);
    assert_eq!(run.handle(RunEvent::Acquired), RunAction::Query);
    let nav = Failure::TransientNetwork;
    assert_eq!(run.handle(RunEvent::QueryFailed(nav)), RunAction::RetryQuery);
    assert_eq!(run.handle(RunEvent::QueryFailed(nav)), RunAction::Release);
    assert_eq!(run.phase, RunPhase::Releasing(Outcome::Failed(Stage::Querying, nav)));
    assert_eq!(run.handle(RunEvent::Released), RunAction::Return);
    assert_eq!(run.phase, RunPhase::Failed(Stage::Querying, nav));
}

#[test]
fn navigation_failure_stops_driver() {
    let mut d = launched(5);
    d.handle(DriverEvent::Status(true));
    let mut run = ScrapeRun::new(Mode::Browser, 1);
    run.handle(RunEvent::Begin);
    run.handle(RunEvent::Acquired);
    let action = run.handle(RunEvent::QueryFailed(Failure::TransientNetwork));
    assert_eq!(action, RunAction::Release);
    assert_eq!(d.stop(), DriverAction::Terminate);
    assert_eq!(run.handle(RunEvent::Released), RunAction::Return);
    assert_eq!(d.phase, DriverPhase::Stopped);
}

#[test]
fn structural_failure_not_retried() {
    let mut run = ScrapeRun::new(Mode::Http, 5);
    run.handle(RunEvent::Begin);
    let missing = Failure::Shape(ScrapeError::CsrfTokenMissing);
    assert_eq!(run.handle(RunEvent::AcquireFailed(missing)), RunAction::Release);
    assert_eq!(run.handle(RunEvent::Released), RunAction::Return);
    assert_eq!(run.phase, RunPhase::Failed(Stage::SessionAcquiring, missing));
}

#[test]
fn successful_run_releases_then_returns() {
    let mut run = ScrapeRun::new(Mode::Http, 3);
    run.handle(RunEvent::Begin);
    run.handle(RunEvent::Acquired);
    assert_eq!(run.handle(RunEvent::Queried), RunAction::Extract);
    assert_eq!(run.handle(RunEvent::Extracted), RunAction::Release);
    assert_eq!(run.handle(RunEvent::Released), RunAction::Return);
    assert_eq!(run.phase, RunPhase::Done);
    assert_eq!(run.handle(RunEvent::Begin), RunAction::Nothing);
}

#[test]
fn extraction_failure_surfaces() {
    let mut run = ScrapeRun::new(Mode::Browser, 3);
    run.handle(RunEvent::Begin);
    run.handle(RunEvent::Acquired);
    run.handle(RunEvent::Queried);
    let f = Failure::Shape(ScrapeError::NotFound);
    assert_eq!(run.handle(RunEvent::ExtractFailed(f)), RunAction::Release);
    run.handle(RunEvent::Released);
    assert_eq!(run.phase, RunPhase::Failed(Stage::Extracting, f));
}

#[test]
fn headless_argument() {
    assert_eq!(browser_args(true), vec!["-headless".to_string()]);
    assert!(browser_args(false).is_empty());
}

#[test]
fn playback_token_between_markers() {
    let dump = r#"[{"name": "https://v/a?token=old&expires=1"}, {"name": "https://v/b?token=abc123&expires=99&x=1"}]"#;
    assert_eq!(playback_token(dump).unwrap(), "abc123");
    assert_eq!(playback_token("https://v/c?token=tail").unwrap(), "tail");
    assert_eq!(playback_token("nothing here").unwrap_err(), ScrapeError::TokenMissing);
}

#[test]
fn decimal_numerals() {
    assert_eq!(parse_decimal("2002"), Some(2002));
    assert_eq!(parse_decimal("+7"), Some(7));
    assert_eq!(parse_decimal("0"), Some(0));
    assert_eq!(parse_decimal(""), None);
    assert_eq!(parse_decimal("+"), None);
    assert_eq!(parse_decimal("-1"), None);
    assert_eq!(parse_decimal(" 1"), None);
    assert_eq!(parse_decimal("18446744073709551615"), Some(usize::MAX));
    assert_eq!(parse_decimal("18446744073709551616"), None);
}

#[test]
fn wait_polls_only_for_absent_elements() {
    let found: Result<Element, ScrapeError> = Ok(Element { attrs: vec![], text: String::new() });
    assert_eq!(wait_step(0, 3, &found), WaitStep::Found);
    assert_eq!(wait_step(0, 3, &Err(ScrapeError::NotFound)), WaitStep::PollAgain);
    assert_eq!(wait_step(1, 3, &Err(ScrapeError::NotFound)), WaitStep::PollAgain);
    assert_eq!(wait_step(2, 3, &Err(ScrapeError::NotFound)), WaitStep::GiveUp(ScrapeError::WaitTimedOut));
    assert_eq!(
        wait_step(0, 3, &Err(ScrapeError::InvalidSelector)),
        WaitStep::GiveUp(ScrapeError::InvalidSelector)
    );
}
