use std::time::Duration;
use timers::input::{decode_key, decode_line, KeyCode, KeyEvent, KeyKind, Request};
use timers::session::{
    add_duration, calculate_and_print_duraition, countdown_print, settle, stopwatch_print,
    sub_duration, Abort, Action, Frame, Next, Outcome, Polled, TimerSession, POLL_MILLIS,
};
use timers::{Hms, Timer};

fn ms(millis: u64) -> Duration {
    Duration::from_millis(millis)
}

fn press(code: KeyCode) -> Polled {
    Polled::Input(decode_key(&KeyEvent { code, kind: KeyKind::Press }))
}

fn line(text: &str) -> Polled {
    Polled::Input(decode_line(text))
}

fn toggle() -> Polled {
    press(KeyCode::Char(' '))
}

fn show(shown: Duration, mode: Timer) -> Action {
    Action { frame: Some(Frame { shown, mode }), next: Next::Sleep }
}

fn idle() -> Action {
    Action { frame: None, next: Next::Sleep }
}

fn finish(outcome: Outcome) -> Action {
    Action { frame: None, next: Next::Finish(outcome) }
}

#[test]
fn poll_period_is_a_tenth_of_a_second() {
    assert_eq!(POLL_MILLIS, 100);
}

#[test]
fn sub_duration_takes_elapsed_time_off() {
    assert_eq!(sub_duration(&ms(5000), &ms(1000), &ms(1300)), ms(4700));
    assert_eq!(sub_duration(&ms(5000), &ms(1000), &ms(1000)), ms(5000));
}

#[test]
fn sub_duration_clamps_at_zero() {
    assert_eq!(sub_duration(&ms(300), &ms(1000), &ms(1300)), Duration::ZERO);
    assert_eq!(sub_duration(&ms(300), &ms(1000), &ms(9000)), Duration::ZERO);
    assert_eq!(sub_duration(&Duration::ZERO, &ms(0), &ms(1)), Duration::ZERO);
}

#[test]
fn sub_duration_with_a_clock_that_ran_backwards() {
    assert_eq!(sub_duration(&ms(300), &ms(1000), &ms(900)), ms(300));
}

#[test]
fn add_duration_adds_elapsed_time() {
    assert_eq!(add_duration(&ms(5000), &ms(1000), &ms(1300)), Ok(ms(5300)));
    assert_eq!(add_duration(&Duration::ZERO, &ms(40), &ms(40)), Ok(Duration::ZERO));
    assert_eq!(add_duration(&ms(5000), &ms(1000), &ms(900)), Ok(ms(5000)));
}

#[test]
fn add_duration_reports_overflow() {
    let nearly = Duration::MAX - ms(100);
    assert_eq!(add_duration(&nearly, &ms(0), &ms(100)), Ok(Duration::MAX));
    assert_eq!(
        add_duration(&nearly, &ms(0), &(ms(100) + Duration::from_nanos(1))),
        Err(Abort::Overflow)
    );
    assert_eq!(add_duration(&Duration::MAX, &ms(0), &Duration::MAX), Err(Abort::Overflow));
}

#[test]
fn countdown_print_ends_at_zero() {
    assert_eq!(countdown_print(ms(100), Timer::RUN), show(ms(100), Timer::RUN));
    assert_eq!(
        countdown_print(Duration::ZERO, Timer::STOP),
        Action {
            frame: Some(Frame { shown: Duration::ZERO, mode: Timer::STOP }),
            next: Next::Finish(Outcome::FinishedCountdownZero),
        }
    );
    assert_eq!(
        countdown_print(Duration::from_nanos(1), Timer::RUN),
        show(Duration::from_nanos(1), Timer::RUN)
    );
}

#[test]
fn stopwatch_print_goes_on() {
    assert_eq!(stopwatch_print(ms(100), Timer::STOP), show(ms(100), Timer::STOP));
    assert_eq!(stopwatch_print(Duration::ZERO, Timer::RUN), show(Duration::ZERO, Timer::RUN));
}

#[test]
fn calculate_for_a_countdown() {
    let target = Some(ms(2000));
    assert_eq!(
        calculate_and_print_duraition(&target, &ms(1500), &ms(100), &ms(400), Timer::RUN),
        show(ms(1200), Timer::RUN)
    );
    assert_eq!(
        calculate_and_print_duraition(&target, &ms(1500), &ms(100), &ms(1600), Timer::STOP),
        Action {
            frame: Some(Frame { shown: Duration::ZERO, mode: Timer::STOP }),
            next: Next::Finish(Outcome::FinishedCountdownZero),
        }
    );
}

#[test]
fn calculate_for_a_stopwatch() {
    assert_eq!(
        calculate_and_print_duraition(&None, &ms(1500), &ms(100), &ms(400), Timer::RUN),
        show(ms(1800), Timer::RUN)
    );
    assert_eq!(
        calculate_and_print_duraition(&None, &Duration::MAX, &ms(100), &ms(400), Timer::RUN),
        finish(Outcome::Aborted(Abort::Overflow))
    );
}

#[test]
fn settle_reports_a_failed_write() {
    assert_eq!(settle(Next::Sleep, true), Next::Sleep);
    assert_eq!(settle(Next::Sleep, false), Next::Finish(Outcome::Aborted(Abort::WriteFailed)));
    assert_eq!(
        settle(Next::Finish(Outcome::FinishedCountdownZero), true),
        Next::Finish(Outcome::FinishedCountdownZero)
    );
    assert_eq!(
        settle(Next::Finish(Outcome::FinishedCountdownZero), false),
        Next::Finish(Outcome::Aborted(Abort::WriteFailed))
    );
}

#[test]
fn outcome_messages() {
    assert_eq!(Outcome::FinishedNormally.message(), "finish!");
    assert_eq!(Outcome::FinishedCountdownZero.message(), "finish!");
    assert_eq!(Outcome::Aborted(Abort::Disconnected).message(), "channel disconnected");
    assert_eq!(Outcome::Aborted(Abort::WriteFailed).message(), "stdout write error");
    assert_eq!(Outcome::Aborted(Abort::Overflow).message(), "time overflow");
}

#[test]
fn a_stopwatch_starts_running_at_zero() {
    let session = TimerSession::stopwatch(ms(700));
    assert_eq!(session.mode(), Timer::RUN);
    assert_eq!(session.accumulated(), Duration::ZERO);
    assert_eq!(session.target(), None);
}

#[test]
fn a_countdown_starts_running_at_its_target() {
    let session = TimerSession::countdown(ms(90_000), ms(700));
    assert_eq!(session.mode(), Timer::RUN);
    assert_eq!(session.accumulated(), ms(90_000));
    assert_eq!(session.target(), Some(ms(90_000)));
}

#[test]
fn an_idle_turn_shows_a_running_stopwatch_and_keeps_it() {
    let mut session = TimerSession::stopwatch(ms(1000));
    assert_eq!(session.step(Polled::Empty, ms(1250)), show(ms(250), Timer::RUN));
    assert_eq!(session.accumulated(), Duration::ZERO);
    assert_eq!(session.mode(), Timer::RUN);
    assert_eq!(session.step(Polled::Empty, ms(1350)), show(ms(350), Timer::RUN));
}

#[test]
fn an_idle_turn_leaves_a_stopped_timer_alone() {
    let mut session = TimerSession::stopwatch(ms(0));
    assert_eq!(session.step(toggle(), ms(300)), show(ms(300), Timer::STOP));
    assert_eq!(session.step(Polled::Empty, ms(400)), idle());
    assert_eq!(session.step(Polled::Empty, ms(5000)), idle());
    assert_eq!(session.accumulated(), ms(300));
    assert_eq!(session.mode(), Timer::STOP);
}

#[test]
fn both_toggle_keys_toggle() {
    for code in [KeyCode::Char(' '), KeyCode::Char('k')] {
        let mut session = TimerSession::stopwatch(ms(0));
        assert_eq!(session.step(press(code), ms(100)), show(ms(100), Timer::STOP));
        assert_eq!(session.mode(), Timer::STOP);
        assert_eq!(session.step(press(code), ms(200)), idle());
        assert_eq!(session.mode(), Timer::RUN);
    }
}

#[test]
fn every_exit_key_ends_the_loop() {
    for code in [KeyCode::Char('q'), KeyCode::Esc, KeyCode::Enter] {
        let mut running = TimerSession::stopwatch(ms(0));
        assert_eq!(running.step(press(code), ms(100)), finish(Outcome::FinishedNormally));
        let mut stopped = TimerSession::countdown(ms(1000), ms(0));
        stopped.step(toggle(), ms(10));
        assert_eq!(stopped.step(press(code), ms(100)), finish(Outcome::FinishedNormally));
    }
}

#[test]
fn other_keys_are_passed_over() {
    let mut session = TimerSession::stopwatch(ms(0));
    for code in [KeyCode::Char('x'), KeyCode::Char('K'), KeyCode::Char('Q'), KeyCode::Other] {
        assert_eq!(session.step(press(code), ms(100)), idle());
        assert_eq!(session.mode(), Timer::RUN);
        assert_eq!(session.accumulated(), Duration::ZERO);
    }
}

#[test]
fn keys_that_are_not_pressed_are_passed_over() {
    let mut session = TimerSession::stopwatch(ms(0));
    for kind in [KeyKind::Release, KeyKind::Repeat] {
        for code in [KeyCode::Char(' '), KeyCode::Char('q'), KeyCode::Esc, KeyCode::Enter] {
            let polled = Polled::Input(decode_key(&KeyEvent { code, kind }));
            assert_eq!(session.step(polled, ms(100)), idle());
            assert_eq!(session.mode(), Timer::RUN);
        }
    }
}

#[test]
fn keys_and_lines_ask_for_the_same_things() {
    assert_eq!(press(KeyCode::Char('k')), Polled::Input(Request::Toggle));
    assert_eq!(line("\n"), Polled::Input(Request::Toggle));
    assert_eq!(press(KeyCode::Esc), Polled::Input(Request::Exit));
    assert_eq!(line("q\n"), Polled::Input(Request::Exit));
    assert_eq!(press(KeyCode::Char('z')), Polled::Input(Request::Nothing));
    assert_eq!(line("z\n"), Polled::Input(Request::Nothing));
    let mut session = TimerSession::stopwatch(ms(0));
    assert_eq!(session.step(line("\n"), ms(100)), show(ms(100), Timer::STOP));
    assert_eq!(session.step(line("hello\n"), ms(200)), idle());
    assert_eq!(session.step(line("\n"), ms(300)), idle());
    assert_eq!(session.mode(), Timer::RUN);
    assert_eq!(session.step(line("q\n"), ms(400)), finish(Outcome::FinishedNormally));
}

#[test]
fn a_gone_listener_breaks_the_loop_off() {
    let mut session = TimerSession::stopwatch(ms(0));
    assert_eq!(
        session.step(Polled::Disconnected, ms(100)),
        finish(Outcome::Aborted(Abort::Disconnected))
    );
    let mut stopped = TimerSession::countdown(ms(1000), ms(0));
    stopped.step(toggle(), ms(10));
    assert_eq!(
        stopped.step(Polled::Disconnected, ms(100)),
        finish(Outcome::Aborted(Abort::Disconnected))
    );
}

#[test]
fn a_stopwatch_past_the_longest_span_breaks_the_loop_off() {
    let mut session = TimerSession::stopwatch(ms(0));
    session.step(toggle(), Duration::MAX);
    assert_eq!(session.accumulated(), Duration::MAX);
    session.step(toggle(), Duration::MAX);
    assert_eq!(session.mode(), Timer::RUN);
    assert_eq!(session.step(Polled::Empty, Duration::MAX), show(Duration::MAX, Timer::RUN));
    let mut earlier = TimerSession::stopwatch(ms(0));
    earlier.step(toggle(), Duration::MAX);
    earlier.step(toggle(), ms(0));
    assert_eq!(
        earlier.step(Polled::Empty, Duration::from_nanos(1)),
        finish(Outcome::Aborted(Abort::Overflow))
    );
    assert_eq!(
        earlier.step(toggle(), Duration::from_nanos(1)),
        finish(Outcome::Aborted(Abort::Overflow))
    );
    assert_eq!(earlier.mode(), Timer::RUN);
    assert_eq!(earlier.accumulated(), Duration::MAX);
}

#[test]
fn countdown_clamps_at_zero_on_an_idle_turn() {
    let mut session = TimerSession::countdown(ms(1000), ms(0));
    assert_eq!(
        session.step(Polled::Empty, ms(5000)),
        Action {
            frame: Some(Frame { shown: Duration::ZERO, mode: Timer::RUN }),
            next: Next::Finish(Outcome::FinishedCountdownZero),
        }
    );
}

#[test]
fn countdown_clamps_at_zero_when_stopped() {
    let mut session = TimerSession::countdown(ms(1000), ms(0));
    assert_eq!(
        session.step(toggle(), ms(1001)),
        Action {
            frame: Some(Frame { shown: Duration::ZERO, mode: Timer::STOP }),
            next: Next::Finish(Outcome::FinishedCountdownZero),
        }
    );
    assert_eq!(session.accumulated(), Duration::ZERO);
    assert_eq!(session.mode(), Timer::STOP);
}

#[test]
fn countdown_banks_what_is_left_when_stopped() {
    let mut session = TimerSession::countdown(ms(1000), ms(0));
    assert_eq!(session.step(toggle(), ms(400)), show(ms(600), Timer::STOP));
    assert_eq!(session.accumulated(), ms(600));
    assert_eq!(session.step(toggle(), ms(10_000)), idle());
    assert_eq!(session.step(Polled::Empty, ms(10_100)), show(ms(500), Timer::RUN));
    assert_eq!(session.target(), Some(ms(1000)));
}

#[test]
fn stopwatch_frames_never_fall() {
    let mut session = TimerSession::stopwatch(ms(0));
    let turns = [
        (Polled::Empty, 100),
        (Polled::Empty, 200),
        (toggle(), 250),
        (Polled::Empty, 300),
        (press(KeyCode::Char('x')), 400),
        (toggle(), 1000),
        (Polled::Empty, 1000),
        (Polled::Empty, 1100),
        (toggle(), 1100),
        (toggle(), 1100),
        (Polled::Empty, 1200),
        (toggle(), 1300),
        (toggle(), 9000),
        (Polled::Empty, 9100),
    ];
    let mut frames = Vec::new();
    for (polled, at) in turns {
        let action = session.step(polled, ms(at));
        assert_eq!(action.next, Next::Sleep);
        if let Some(frame) = action.frame {
            frames.push(frame.shown);
        }
    }
    let expected: Vec<Duration> =
        [100, 200, 250, 250, 350, 350, 450, 550, 650].iter().map(|m| ms(*m)).collect();
    assert_eq!(frames, expected);
    for pair in frames.windows(2) {
        assert!(pair[0] <= pair[1]);
    }
}

#[test]
fn a_second_request_to_run_changes_nothing() {
    let mut session = TimerSession::stopwatch(ms(0));
    session.step(toggle(), ms(300));
    assert_eq!(session.accumulated(), ms(300));
    session.resume(ms(1000));
    assert_eq!(session.mode(), Timer::RUN);
    assert_eq!(session.accumulated(), ms(300));
    let after_first = session;
    session.resume(ms(2000));
    assert_eq!(session.mode(), Timer::RUN);
    assert_eq!(session.accumulated(), ms(300));
    assert_eq!(
        session.step(Polled::Empty, ms(2500)),
        { let mut first = after_first; first.step(Polled::Empty, ms(2500)) }
    );
    assert_eq!(session.step(Polled::Empty, ms(2500)), show(ms(1800), Timer::RUN));
}

#[test]
fn resume_starts_a_stopped_timer_at_the_given_reading() {
    let mut session = TimerSession::countdown(ms(1000), ms(0));
    session.step(toggle(), ms(100));
    session.resume(ms(5000));
    assert_eq!(session.step(Polled::Empty, ms(5200)), show(ms(700), Timer::RUN));
}

#[test]
fn stopwatch_from_start_to_exit() {
    let mut session = TimerSession::stopwatch(ms(0));
    let action = session.step(Polled::Empty, ms(250));
    assert_eq!(action, show(ms(250), Timer::RUN));
    assert_eq!(Hms::from(action.frame.unwrap().shown).to_string(), "0:00:00.2");
    assert_eq!(settle(action.next, true), Next::Sleep);

    let stopped = session.step(toggle(), ms(260));
    assert_eq!(stopped, show(ms(260), Timer::STOP));
    assert_eq!(Hms::from(stopped.frame.unwrap().shown).to_string(), "0:00:00.2");
    for at in [300, 400, 500, 5000] {
        assert_eq!(session.step(Polled::Empty, ms(at)), idle());
        assert_eq!(session.accumulated(), ms(260));
    }

    assert_eq!(session.step(toggle(), ms(6000)), idle());
    assert_eq!(session.step(Polled::Empty, ms(6100)), show(ms(360), Timer::RUN));

    let last = session.step(press(KeyCode::Char('q')), ms(6150));
    assert_eq!(last, finish(Outcome::FinishedNormally));
    match last.next {
        Next::Finish(outcome) => assert_eq!(outcome.message(), "finish!"),
        Next::Sleep => panic!("the loop has to end"),
    }
}

#[test]
fn countdown_of_one_second_left_alone() {
    let target = Hms::parse("0:00:01").unwrap().to_duration();
    assert_eq!(target, ms(1000));
    let mut session = TimerSession::countdown(target, ms(0));
    let mut at = 0;
    loop {
        let action = session.step(Polled::Empty, ms(at));
        let frame = action.frame.unwrap();
        assert_eq!(frame.mode, Timer::RUN);
        assert_eq!(frame.shown, ms(1000u64.saturating_sub(at)));
        match settle(action.next, true) {
            Next::Sleep => {
                assert!(at < 1000);
                assert!(!frame.shown.is_zero());
            }
            Next::Finish(outcome) => {
                assert_eq!(at, 1000);
                assert_eq!(frame.shown, Duration::ZERO);
                assert_eq!(outcome, Outcome::FinishedCountdownZero);
                assert_eq!(outcome.message(), "finish!");
                break;
            }
        }
        at += POLL_MILLIS;
    }
}

#[test]
fn countdown_with_a_late_turn() {
    let mut session = TimerSession::countdown(ms(1000), ms(0));
    assert_eq!(session.step(Polled::Empty, ms(999)), show(ms(1), Timer::RUN));
    let action = session.step(Polled::Empty, ms(1099));
    assert_eq!(action.frame, Some(Frame { shown: Duration::ZERO, mode: Timer::RUN }));
    assert_eq!(action.next, Next::Finish(Outcome::FinishedCountdownZero));
}

#[test]
fn a_failed_write_breaks_the_loop_off() {
    let mut session = TimerSession::stopwatch(ms(0));
    let action = session.step(Polled::Empty, ms(100));
    assert!(action.frame.is_some());
    let next = settle(action.next, false);
    assert_eq!(next, Next::Finish(Outcome::Aborted(Abort::WriteFailed)));
    match next {
        Next::Finish(outcome) => assert_eq!(outcome.message(), "stdout write error"),
        Next::Sleep => panic!("the loop has to end"),
    }
}
