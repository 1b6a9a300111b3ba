use miniview::ConfigBuilder;
use miniview::Source;
use miniview::controller::Command;
use miniview::controller::JoinOutcome;
use miniview::controller::LifecycleModel;
use miniview::controller::NativeEvent;
use miniview::controller::TickObservation;
use miniview::controller::TickStep;
use miniview::controller::ViewPhase;
use miniview::controller::close_outcome;
use miniview::controller::event_loop_tick;
use miniview::controller::run_event_loop;
use miniview::controller::wait_outcome;
use miniview::errors::MiniViewError;

#[test]
fn close_command_closes_within_one_tick() {
    let config = ConfigBuilder::new(Source::StdinBytes).build();
    let mut lifecycle = LifecycleModel::new();
    let step = event_loop_tick(&config, &mut lifecycle, Some(Command::Close), None, false);
    assert_eq!(step, TickStep::CloseAndExit);
    assert_eq!(lifecycle.phase, ViewPhase::Closing);
    assert!(lifecycle.close_requested);
}

#[test]
fn close_command_wins_over_polled_event() {
    let config = ConfigBuilder::new(Source::StdinBytes).build();
    let mut lifecycle = LifecycleModel::new();
    let step = event_loop_tick(
        &config,
        &mut lifecycle,
        Some(Command::Close),
        Some(NativeEvent::Other),
        false,
    );
    assert_eq!(step, TickStep::CloseAndExit);
}

#[test]
fn native_close_request_closes() {
    let config = ConfigBuilder::new(Source::StdinBytes).build();
    let mut lifecycle = LifecycleModel::new();
    let step = event_loop_tick(
        &config,
        &mut lifecycle,
        None,
        Some(NativeEvent::CloseRequested),
        false,
    );
    assert_eq!(step, TickStep::CloseAndExit);
    assert_eq!(lifecycle.phase, ViewPhase::Closing);
}

#[test]
fn escape_closes_when_configured() {
    let config = ConfigBuilder::new(Source::StdinBytes).build();
    assert!(config.exit_on_esc());
    let mut lifecycle = LifecycleModel::new();
    let step = event_loop_tick(
        &config,
        &mut lifecycle,
        None,
        Some(NativeEvent::EscapePressed),
        false,
    );
    assert_eq!(step, TickStep::CloseAndExit);
    assert_eq!(lifecycle.phase, ViewPhase::Closing);
}

#[test]
fn escape_leaves_window_open_when_not_configured() {
    let config = ConfigBuilder::new(Source::StdinBytes).exit_on_esc(false).build();
    let mut lifecycle = LifecycleModel::new();
    let step = event_loop_tick(
        &config,
        &mut lifecycle,
        None,
        Some(NativeEvent::EscapePressed),
        false,
    );
    assert_eq!(step, TickStep::Draw);
    assert_eq!(lifecycle.phase, ViewPhase::Open);
    assert!(!lifecycle.close_requested);
}

#[test]
fn auto_close_closes_without_command() {
    let config = ConfigBuilder::new(Source::StdinBytes).build();
    let mut lifecycle = LifecycleModel::new();
    let step = event_loop_tick(&config, &mut lifecycle, None, Some(NativeEvent::AfterRender), true);
    assert_eq!(step, TickStep::CloseAndExit);
    assert_eq!(lifecycle.phase, ViewPhase::Closing);
}

#[test]
fn quiet_tick_keeps_window_open() {
    let config = ConfigBuilder::new(Source::StdinBytes).build();
    let mut lifecycle = LifecycleModel::new();
    assert_eq!(event_loop_tick(&config, &mut lifecycle, None, None, false), TickStep::Continue);
    assert_eq!(
        event_loop_tick(&config, &mut lifecycle, None, Some(NativeEvent::AfterRender), false),
        TickStep::Continue
    );
    assert_eq!(lifecycle.phase, ViewPhase::Open);
    assert!(!lifecycle.close_requested);
}

#[test]
fn ordinary_event_draws_once() {
    let config = ConfigBuilder::new(Source::StdinBytes).build();
    let mut lifecycle = LifecycleModel::new();
    let step = event_loop_tick(&config, &mut lifecycle, None, Some(NativeEvent::Other), false);
    assert_eq!(step, TickStep::Draw);
    assert_eq!(lifecycle.phase, ViewPhase::Open);
}

#[test]
fn lifecycle_reaches_closed_after_close() {
    let mut lifecycle = LifecycleModel::new();
    lifecycle.request_close();
    assert_eq!(lifecycle.phase, ViewPhase::Closing);
    lifecycle.mark_closed();
    assert_eq!(lifecycle.phase, ViewPhase::Closed);
    assert!(lifecycle.close_requested);
}

#[test]
fn event_loop_stops_at_first_trigger() {
    let config = ConfigBuilder::from_path("plant.jpg").set_fullscreen(true).set_lazy_window(false).build();
    let mut lifecycle = LifecycleModel::new();
    let quiet = TickObservation { command: None, event: Some(NativeEvent::Other), auto_close: false };
    let close = TickObservation { command: Some(Command::Close), event: None, auto_close: false };
    let late = TickObservation { command: None, event: Some(NativeEvent::CloseRequested), auto_close: false };
    let script = vec![quiet, quiet, close, late];
    let closed_at = run_event_loop(&config, &mut lifecycle, &script);
    assert_eq!(closed_at, Some(2));
    assert_eq!(lifecycle.phase, ViewPhase::Closing);
    assert!(lifecycle.close_requested);
}

#[test]
fn event_loop_without_trigger_keeps_running() {
    let config = ConfigBuilder::new(Source::StdinBytes).exit_on_esc(false).build();
    let mut lifecycle = LifecycleModel::new();
    let script = vec![
        TickObservation { command: None, event: None, auto_close: false },
        TickObservation { command: None, event: Some(NativeEvent::EscapePressed), auto_close: false },
        TickObservation { command: None, event: Some(NativeEvent::AfterRender), auto_close: false },
    ];
    let closed_at = run_event_loop(&config, &mut lifecycle, &script);
    assert_eq!(closed_at, None);
    assert_eq!(lifecycle.phase, ViewPhase::Open);
}

#[test]
fn close_returns_success_after_clean_exit() {
    let outcome = close_outcome(true, JoinOutcome::Returned(Ok(())));
    assert_eq!(outcome, Ok(()));
}

#[test]
fn close_propagates_the_workers_own_error() {
    let outcome = close_outcome(
        true,
        JoinOutcome::Returned(Err(MiniViewError::UnableToCreateWindow)),
    );
    assert_eq!(outcome, Err(MiniViewError::UnableToCreateWindow));
}

#[test]
fn close_reports_abnormal_join_distinctly() {
    let outcome = close_outcome(true, JoinOutcome::Panicked);
    assert_eq!(outcome, Err(MiniViewError::ViewThreadFailedToJoin));
}

#[test]
fn close_reports_failed_send_only_on_clean_exit() {
    let clean = close_outcome(false, JoinOutcome::Returned(Ok(())));
    assert_eq!(clean, Err(MiniViewError::SendStopError));
    let failed = close_outcome(false, JoinOutcome::Returned(Err(MiniViewError::UnableToMapImage)));
    assert_eq!(failed, Err(MiniViewError::UnableToMapImage));
}

#[test]
fn wait_propagates_terminal_result() {
    assert_eq!(wait_outcome(JoinOutcome::Returned(Ok(()))), Ok(()));
    assert_eq!(
        wait_outcome(JoinOutcome::Returned(Err(MiniViewError::UnableToMapImage))),
        Err(MiniViewError::UnableToMapImage)
    );
    assert_eq!(wait_outcome(JoinOutcome::Panicked), Err(MiniViewError::ViewThreadFailedToJoin));
}
