use tui_events::error::TuiError;
use tui_events::event::Event;
use tui_events::rate::{Rate, DEFAULT_FRAME_RATE, DEFAULT_TICK_RATE};
use tui_events::task::Phase;
use tui_events::terminal::{DriverOp, TerminalMode};
use tui_events::tui::Tui;

fn rate_error(r: Result<Tui, TuiError>) -> TuiError {
    match r {
        Ok(_) => panic!("the rate was accepted"),
        Err(e) => e,
    }
}

fn accepted(r: Result<Tui, TuiError>) -> Tui {
    match r {
        Ok(tui) => tui,
        Err(e) => panic!("the rate was rejected: {:?}", e),
    }
}

#[test]
fn new_has_default_rates_and_no_capture() {
    let tui = Tui::new();
    assert_eq!(tui.tick_rate.hertz(), DEFAULT_TICK_RATE);
    assert_eq!(tui.frame_rate.hertz(), DEFAULT_FRAME_RATE);
    assert_eq!(tui.tick_rate.hertz(), 4);
    assert_eq!(tui.frame_rate.hertz(), 60);
    assert!(!tui.mouse);
    assert!(!tui.paste);
    assert!(!tui.started);
    assert_eq!(tui.mode, TerminalMode::restored());
}

#[test]
fn tick_rate_zero_is_rejected() {
    assert_eq!(rate_error(Tui::new().tick_rate(0)), TuiError::InvalidRate);
}

#[test]
fn tick_rate_negative_is_rejected() {
    assert_eq!(rate_error(Tui::new().tick_rate(-1)), TuiError::InvalidRate);
    assert_eq!(rate_error(Tui::new().tick_rate(i64::MIN)), TuiError::InvalidRate);
}

#[test]
fn frame_rate_non_positive_is_rejected() {
    assert_eq!(rate_error(Tui::new().frame_rate(0)), TuiError::InvalidRate);
    assert_eq!(rate_error(Tui::new().frame_rate(-1)), TuiError::InvalidRate);
}

#[test]
fn rejected_rate_starts_no_task() {
    // The rejection comes from the builder itself: there is no multiplexer
    // left on which a task could be started.
    let r = Tui::new().tick_rate(0);
    assert!(r.is_err());
}

#[test]
fn tick_rate_two_gives_half_second_period() {
    let mut tui = accepted(Tui::new().tick_rate(2));
    assert_eq!(tui.tick_rate.hertz(), 2);
    assert_eq!(tui.tick_rate.period_nanos(), 500_000_000);
    let launch = tui.start();
    assert_eq!(launch.task.tick.period_nanos(), 500_000_000);
    let seconds = launch.task.tick.period_nanos() as f64 / 1e9;
    assert_eq!(seconds, 0.5);
}

#[test]
fn builders_change_one_setting_each() {
    let tui = accepted(accepted(Tui::new().tick_rate(1)).frame_rate(30));
    assert_eq!(tui.tick_rate.hertz(), 1);
    assert_eq!(tui.frame_rate.hertz(), 30);
    assert!(!tui.mouse && !tui.paste);
    let tui = tui.mouse(true);
    assert!(tui.mouse && !tui.paste);
    assert_eq!(tui.tick_rate.hertz(), 1);
    let tui = tui.paste(true);
    assert!(tui.mouse && tui.paste);
    let tui = tui.mouse(false);
    assert!(!tui.mouse && tui.paste);
    assert_eq!(tui.frame_rate.hertz(), 30);
}

#[test]
fn periods_are_rounded_up_to_whole_nanoseconds() {
    assert_eq!(Rate::new(1).unwrap().period_nanos(), 1_000_000_000);
    assert_eq!(Rate::new(3).unwrap().period_nanos(), 333_333_334);
    assert_eq!(Rate::new(4).unwrap().period_nanos(), 250_000_000);
    assert_eq!(Rate::new(30).unwrap().period_nanos(), 33_333_334);
    assert_eq!(Rate::new(60).unwrap().period_nanos(), 16_666_667);
    assert_eq!(Rate::new(1_000_000_000).unwrap().period_nanos(), 1);
    assert_eq!(Rate::new(1_000_000_001).unwrap().period_nanos(), 1);
    assert_eq!(Rate::new(i64::MAX).unwrap().period_nanos(), 1);
}

#[test]
fn rate_new_accepts_exactly_the_positive() {
    assert_eq!(Rate::new(0), Err(TuiError::InvalidRate));
    assert_eq!(Rate::new(-5), Err(TuiError::InvalidRate));
    assert_eq!(Rate::new(1).unwrap().hertz(), 1);
    assert_eq!(Rate::new(i64::MAX).unwrap().hertz(), i64::MAX);
}

#[test]
fn default_rates_are_four_and_sixty() {
    assert_eq!(Rate::default_tick().hertz(), 4);
    assert_eq!(Rate::default_frame().hertz(), 60);
}

#[test]
fn start_hands_out_the_current_token_and_queue() {
    let mut tui = accepted(accepted(Tui::new().tick_rate(1)).frame_rate(2));
    let launch = tui.start();
    assert!(tui.started);
    assert!(launch.cancellation_token == tui.cancellation_token);
    assert!(launch.event_tx.same_channel(&tui.event_tx));
    assert!(!launch.cancellation_token.is_cancelled());
    assert_eq!(launch.task.phase, Phase::Fresh);
    assert_eq!(launch.task.tick.period_nanos(), 1_000_000_000);
    assert_eq!(launch.task.render.period_nanos(), 500_000_000);
    assert_eq!(launch.task.tick.deadline_nanos(), 0);
    assert_eq!(launch.task.render.deadline_nanos(), 0);
}

#[test]
fn second_start_signals_the_previous_token() {
    let mut tui = Tui::new();
    let first = tui.start();
    assert!(!first.cancellation_token.is_cancelled());
    let second = tui.start();
    assert!(first.cancellation_token.is_cancelled());
    assert!(!second.cancellation_token.is_cancelled());
    assert!(second.cancellation_token == tui.cancellation_token);
    assert!(first.cancellation_token != tui.cancellation_token);
    assert!(second.event_tx.same_channel(&first.event_tx));
}

#[test]
fn previous_task_is_silent_once_it_sees_the_signal() {
    let mut tui = Tui::new();
    let first = tui.start();
    let mut old_task = first.task;
    old_task.launch(&first.event_tx);
    assert_eq!(tui.event_rx.try_recv().ok(), Some(Event::Init));
    let _second = tui.start();
    // The old task reaches its wait point and finds its token signalled.
    assert!(first.cancellation_token.is_cancelled());
    old_task.forward(&first.event_tx, tui_events::task::Ready::Cancelled);
    assert_eq!(old_task.phase, Phase::Stopped);
    old_task.forward(&first.event_tx, tui_events::task::Ready::Tick);
    old_task.forward(&first.event_tx, tui_events::task::Ready::Render);
    assert!(tui.event_rx.try_recv().is_err());
}

#[test]
fn cancel_is_idempotent() {
    let tui = Tui::new();
    assert!(!tui.cancellation_token.is_cancelled());
    tui.cancel();
    assert!(tui.cancellation_token.is_cancelled());
    tui.cancel();
    tui.cancel();
    assert!(tui.cancellation_token.is_cancelled());
}

#[test]
fn enter_plan_follows_the_capture_flags() {
    let base = vec![DriverOp::EnableRawMode, DriverOp::EnterAlternateScreen, DriverOp::HideCursor];
    assert_eq!(Tui::new().enter_plan(), base);
    let mut with_mouse = base.clone();
    with_mouse.push(DriverOp::EnableMouseCapture);
    assert_eq!(Tui::new().mouse(true).enter_plan(), with_mouse);
    let mut with_paste = base.clone();
    with_paste.push(DriverOp::EnableBracketedPaste);
    assert_eq!(Tui::new().paste(true).enter_plan(), with_paste);
    let mut with_both = with_mouse.clone();
    with_both.push(DriverOp::EnableBracketedPaste);
    assert_eq!(Tui::new().mouse(true).paste(true).enter_plan(), with_both);
}

#[test]
fn enter_starts_a_task_when_every_toggle_succeeded() {
    let mut tui = Tui::new().mouse(true);
    let plan = tui.enter_plan();
    let launch = match tui.enter(plan.len()) {
        Ok(launch) => launch,
        Err(e) => panic!("enter failed: {:?}", e),
    };
    assert!(tui.started);
    assert!(launch.cancellation_token == tui.cancellation_token);
    assert_eq!(launch.task.phase, Phase::Fresh);
    assert_eq!(
        tui.mode,
        TerminalMode {
            raw: true,
            alternate_screen: true,
            cursor_hidden: true,
            mouse_capture: true,
            bracketed_paste: false,
        }
    );
}

#[test]
fn enter_fails_with_terminal_mode_fault_and_starts_nothing() {
    let mut tui = Tui::new().mouse(true).paste(true);
    let before = tui.cancellation_token.clone();
    // Raw mode went on, the alternate screen was refused.
    let r = tui.enter(1);
    assert_eq!(r.err(), Some(TuiError::TerminalModeFault));
    assert!(!tui.started);
    assert!(tui.cancellation_token == before);
    assert!(!tui.cancellation_token.is_cancelled());
    assert_eq!(
        tui.mode,
        TerminalMode {
            raw: true,
            alternate_screen: false,
            cursor_hidden: false,
            mouse_capture: false,
            bracketed_paste: false,
        }
    );
    // Best-effort restoration undoes exactly what went on.
    assert_eq!(tui.exit_plan(), vec![DriverOp::DisableRawMode]);
    assert_eq!(tui.exit(1), Ok(()));
    assert_eq!(tui.mode, TerminalMode::restored());
}

#[test]
fn enter_with_nothing_performed_fails() {
    let mut tui = Tui::new();
    assert_eq!(tui.enter(0).err(), Some(TuiError::TerminalModeFault));
    assert_eq!(tui.mode, TerminalMode::restored());
}

#[test]
fn exit_without_enter_never_fails() {
    let mut tui = Tui::new();
    assert!(tui.exit_plan().is_empty());
    assert_eq!(tui.exit(0), Ok(()));
    assert_eq!(tui.exit(0), Ok(()));
    assert_eq!(tui.exit(7), Ok(()));
    assert_eq!(tui.mode, TerminalMode::restored());
    assert!(tui.exit_plan().is_empty());
}

#[test]
fn exit_many_times_disables_each_mode_once() {
    let mut tui = Tui::new().mouse(true).paste(true);
    let plan = tui.enter_plan();
    assert!(tui.enter(plan.len()).is_ok());
    let leave = tui.exit_plan();
    assert_eq!(
        leave,
        vec![
            DriverOp::DisableBracketedPaste,
            DriverOp::DisableMouseCapture,
            DriverOp::LeaveAlternateScreen,
            DriverOp::DisableRawMode,
            DriverOp::ShowCursor,
        ]
    );
    assert_eq!(tui.exit(leave.len()), Ok(()));
    assert_eq!(tui.mode, TerminalMode::restored());
    for _ in 0..3 {
        assert!(tui.exit_plan().is_empty());
        assert_eq!(tui.exit(0), Ok(()));
    }
}

#[test]
fn exit_never_disables_a_capture_that_is_off() {
    let mut tui = Tui::new();
    let plan = tui.enter_plan();
    assert!(tui.enter(plan.len()).is_ok());
    let leave = tui.exit_plan();
    assert!(!leave.contains(&DriverOp::DisableMouseCapture));
    assert!(!leave.contains(&DriverOp::DisableBracketedPaste));
    assert_eq!(
        leave,
        vec![DriverOp::LeaveAlternateScreen, DriverOp::DisableRawMode, DriverOp::ShowCursor]
    );
}

#[test]
fn failed_exit_keeps_what_is_left_for_the_next_attempt() {
    let mut tui = Tui::new().mouse(true);
    let plan = tui.enter_plan();
    assert!(tui.enter(plan.len()).is_ok());
    // Mouse capture went off, leaving the alternate screen was refused.
    assert_eq!(tui.exit(1), Err(TuiError::TerminalModeFault));
    assert_eq!(
        tui.exit_plan(),
        vec![DriverOp::LeaveAlternateScreen, DriverOp::DisableRawMode, DriverOp::ShowCursor]
    );
    assert_eq!(tui.exit(3), Ok(()));
    assert!(tui.exit_plan().is_empty());
}

#[test]
fn exit_does_not_cancel_the_task() {
    let mut tui = Tui::new();
    let plan = tui.enter_plan();
    let launch = tui.enter(plan.len()).ok().unwrap();
    let leave = tui.exit_plan();
    assert_eq!(tui.exit(leave.len()), Ok(()));
    assert!(tui.started);
    assert!(!launch.cancellation_token.is_cancelled());
    assert!(launch.cancellation_token == tui.cancellation_token);
}

#[test]
fn re_enter_after_exit() {
    let mut tui = Tui::new();
    let plan = tui.enter_plan();
    let first = tui.enter(plan.len()).ok().unwrap();
    let leave = tui.exit_plan();
    assert_eq!(tui.exit(leave.len()), Ok(()));
    let plan = tui.enter_plan();
    let second = tui.enter(plan.len()).ok().unwrap();
    assert!(first.cancellation_token.is_cancelled());
    assert!(!second.cancellation_token.is_cancelled());
    assert!(tui.mode.raw && tui.mode.alternate_screen && tui.mode.cursor_hidden);
}

#[test]
fn received_maps_a_closed_queue_to_channel_closed() {
    assert_eq!(Tui::received(Some(Event::Tick)), Ok(Event::Tick));
    assert_eq!(
        Tui::received(Some(Event::Paste(String::from("abc")))),
        Ok(Event::Paste(String::from("abc")))
    );
    assert_eq!(Tui::received(None), Err(TuiError::ChannelClosed));
}

#[test]
fn error_messages() {
    assert_eq!(TuiError::ChannelClosed.message(), "Unable to get event");
    assert_eq!(TuiError::InvalidRate.message(), "rate must be greater than zero");
    assert_eq!(TuiError::TerminalModeFault.message(), "terminal mode change failed");
}
