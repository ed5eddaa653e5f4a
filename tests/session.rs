use pomodoro::key_handler::{stops_listening, translate_key, Key, KeyAction};
use pomodoro::session::{
    break_sec_for_round, gate_notice, gate_response, Config, GateStep, Mode, Phase, Session,
    SessionStep,
};
use pomodoro::timer::{Countdown, TickStep};
use pomodoro::view::{break_timer_screen, work_timer_screen};

fn config(work_sec: u16, short_break_sec: u16, long_break_sec: u16) -> Config {
    Config { work_sec, short_break_sec, long_break_sec }
}

/// Runs a countdown with no input and returns the headlines it drew.
fn run_quietly(mode: Mode, total_sec: u16, current_round: u64) -> Vec<String> {
    let mut c = Countdown::new(total_sec, current_round);
    let mut drawn = Vec::new();
    while c.is_running() {
        if let TickStep::Render { remaining_sec, current_round } = c.apply_action(KeyAction::Idle) {
            let screen = match mode {
                Mode::Work => work_timer_screen(remaining_sec, current_round),
                Mode::Break => break_timer_screen(remaining_sec, current_round),
            };
            drawn.push(screen.headline);
            c.finish_tick(1);
        }
    }
    drawn
}

#[test]
fn break_length_follows_round_robin() {
    let cfg = config(1500, 300, 1200);
    assert_eq!(break_sec_for_round(&cfg, 1), 300);
    assert_eq!(break_sec_for_round(&cfg, 2), 300);
    assert_eq!(break_sec_for_round(&cfg, 3), 300);
    assert_eq!(break_sec_for_round(&cfg, 4), 1200);
    assert_eq!(break_sec_for_round(&cfg, 5), 300);
    assert_eq!(break_sec_for_round(&cfg, 8), 1200);
    assert_eq!(break_sec_for_round(&cfg, 0), 1200);
}

#[test]
fn gate_waits_for_confirm_or_quit() {
    assert_eq!(gate_response(KeyAction::Confirm), GateStep::Proceed);
    assert_eq!(gate_response(KeyAction::Quit), GateStep::Quit);
    assert_eq!(gate_response(KeyAction::Pause), GateStep::Wait);
    assert_eq!(gate_response(KeyAction::Idle), GateStep::Wait);
}

#[test]
fn keys_translate_to_actions() {
    assert_eq!(translate_key(Key::Enter, true), Some(KeyAction::Confirm));
    assert_eq!(translate_key(Key::Char(' '), true), Some(KeyAction::Pause));
    assert_eq!(translate_key(Key::Char('q'), true), Some(KeyAction::Quit));
    assert_eq!(translate_key(Key::Char('Q'), true), None);
    assert_eq!(translate_key(Key::Char('x'), true), None);
    assert_eq!(translate_key(Key::Other, true), None);
    assert_eq!(translate_key(Key::Enter, false), None);
    assert_eq!(translate_key(Key::Char('q'), false), None);
    assert!(stops_listening(KeyAction::Quit));
    assert!(!stops_listening(KeyAction::Pause));
    assert!(!stops_listening(KeyAction::Confirm));
}

#[test]
fn notices_name_the_next_period() {
    assert_eq!(gate_notice(Mode::Break), "it's time to take a break \u{2615}");
    assert_eq!(gate_notice(Mode::Work), "it's time to work again!! \u{1F4AA}");
}

#[test]
fn session_runs_a_full_round_and_starts_the_next() {
    let mut s = Session::new(config(2, 2, 2));
    assert_eq!(
        s.current_step(),
        SessionStep::Countdown { mode: Mode::Work, total_sec: 2, current_round: 1 }
    );
    let drawn = run_quietly(Mode::Work, 2, 1);
    assert!(drawn[0].contains("00:02 (Round 1)"));
    assert!(drawn[1].contains("00:01 (Round 1)"));
    assert_eq!(drawn.len(), 2);
    s.advance(false);

    assert_eq!(s.current_step(), SessionStep::Gate { mode: Mode::Break });
    assert_eq!(gate_response(KeyAction::Idle), GateStep::Wait);
    assert_eq!(gate_response(KeyAction::Pause), GateStep::Wait);
    assert_eq!(gate_response(KeyAction::Confirm), GateStep::Proceed);
    s.advance(false);

    assert_eq!(
        s.current_step(),
        SessionStep::Countdown { mode: Mode::Break, total_sec: 2, current_round: 1 }
    );
    let drawn = run_quietly(Mode::Break, 2, 1);
    assert!(drawn[0].contains("00:02"));
    assert!(drawn[1].contains("00:01"));
    s.advance(false);

    assert_eq!(s.current_step(), SessionStep::Gate { mode: Mode::Work });
    assert_eq!(gate_response(KeyAction::Confirm), GateStep::Proceed);
    s.advance(false);

    assert_eq!(s.round, 2);
    assert_eq!(
        s.current_step(),
        SessionStep::Countdown { mode: Mode::Work, total_sec: 2, current_round: 2 }
    );
}

#[test]
fn fourth_round_takes_the_long_break() {
    let mut s = Session::new(config(10, 20, 30));
    for _ in 0..3 {
        for _ in 0..4 {
            s.advance(false);
        }
    }
    assert_eq!(s.round, 4);
    s.advance(false);
    s.advance(false);
    assert_eq!(
        s.current_step(),
        SessionStep::Countdown { mode: Mode::Break, total_sec: 30, current_round: 4 }
    );
}

#[test]
fn quit_ends_the_session_from_any_phase() {
    for steps in 0..4 {
        let mut s = Session::new(config(10, 20, 30));
        for _ in 0..steps {
            s.advance(false);
        }
        s.advance(true);
        assert_eq!(s.phase, Phase::Finished);
        assert_eq!(s.current_step(), SessionStep::Exit);
    }
}
