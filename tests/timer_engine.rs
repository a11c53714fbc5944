use rusty_pomodoro::config_manager::Settings;
use rusty_pomodoro::timer::{Timer, TimerCommand, TimerEvent, TimerSession, TimerState};

fn settings(work: u32, relief: u32, brk: u32, cycles: u32) -> Settings {
    Settings { work_seconds: work, relief_seconds: relief, break_seconds: brk, work_relief_cycles: cycles }
}

fn started(s: Settings) -> Timer {
    let mut t = Timer::new(s);
    t.prepare_start();
    t
}

fn run_to_waiting(t: &mut Timer) {
    while t.get_state() == TimerState::CountDown {
        t.tick();
    }
    assert_eq!(t.get_state(), TimerState::Waiting);
    assert_eq!(t.get_remaining(), 0);
}

#[test]
fn new_timer_is_idle() {
    let t = Timer::new(settings(5, 3, 7, 2));
    assert_eq!(t.get_state(), TimerState::Idle);
    assert_eq!(t.get_session(), TimerSession::Working);
    assert_eq!(t.get_remaining(), 0);
    assert_eq!(t.get_cycles_complete(), 0);
}

#[test]
fn prepare_start_loads_work_time() {
    let t = started(settings(5, 3, 7, 2));
    assert_eq!(t.get_state(), TimerState::CountDown);
    assert_eq!(t.get_session(), TimerSession::Working);
    assert_eq!(t.get_remaining(), 5);
    assert_eq!(t.get_cycles_complete(), 0);
}

#[test]
fn ticks_never_increase_and_wait_once() {
    let mut t = started(settings(3, 1, 1, 2));
    let mut last = t.get_remaining();
    let mut waits = 0;
    for _ in 0..10 {
        let before = t.get_state();
        t.tick();
        assert!(t.get_remaining() <= last);
        last = t.get_remaining();
        if before == TimerState::CountDown && t.get_state() == TimerState::Waiting {
            waits += 1;
        }
    }
    assert_eq!(waits, 1);
    assert_eq!(t.get_remaining(), 0);
    assert_eq!(t.get_state(), TimerState::Waiting);
}

#[test]
fn tick_at_zero_waits_without_decrementing() {
    let mut t = started(settings(0, 1, 1, 2));
    t.tick();
    assert_eq!(t.get_state(), TimerState::Waiting);
    assert_eq!(t.get_remaining(), 0);
}

#[test]
fn tick_reaching_zero_starts_waiting() {
    let mut t = started(settings(3, 1, 1, 2));
    t.tick();
    assert_eq!(t.get_state(), TimerState::CountDown);
    assert_eq!(t.get_remaining(), 2);
    t.tick();
    assert_eq!(t.get_state(), TimerState::CountDown);
    assert_eq!(t.get_remaining(), 1);
    t.tick();
    assert_eq!(t.get_state(), TimerState::Waiting);
    assert_eq!(t.get_remaining(), 0);
    t.tick();
    assert_eq!(t.get_state(), TimerState::Waiting);
    assert_eq!(t.get_remaining(), 0);
}

#[test]
fn tick_outside_countdown_does_nothing() {
    let mut t = started(settings(4, 1, 1, 2));
    t.pause();
    t.tick();
    assert_eq!(t.get_state(), TimerState::Paused);
    assert_eq!(t.get_remaining(), 4);
}

#[test]
fn pause_twice_equals_pause_once() {
    let mut t = started(settings(4, 1, 1, 2));
    t.pause();
    let once = t.snapshot();
    t.pause();
    assert_eq!(t.snapshot(), once);
    assert_eq!(t.get_state(), TimerState::Paused);
}

#[test]
fn resume_twice_equals_resume_once() {
    let mut t = started(settings(4, 1, 1, 2));
    t.pause();
    t.resume();
    let once = t.snapshot();
    t.resume();
    assert_eq!(t.snapshot(), once);
    assert_eq!(t.get_state(), TimerState::CountDown);
}

#[test]
fn stop_ignored_while_counting_down() {
    let mut t = started(settings(4, 1, 1, 2));
    let before = t.snapshot();
    assert!(!t.stop());
    assert_eq!(t.snapshot(), before);
}

#[test]
fn stop_ignored_while_idle() {
    let mut t = Timer::new(settings(4, 1, 1, 2));
    let before = t.snapshot();
    assert!(!t.stop());
    assert_eq!(t.snapshot(), before);
}

#[test]
fn stop_accepted_when_paused() {
    let mut t = started(settings(4, 1, 1, 2));
    t.tick();
    t.pause();
    assert!(t.stop());
    assert_eq!(t.get_state(), TimerState::Idle);
    assert_eq!(t.get_remaining(), 0);
    assert_eq!(t.get_cycles_complete(), 0);
}

#[test]
fn stop_accepted_when_waiting() {
    let mut t = started(settings(1, 1, 1, 3));
    run_to_waiting(&mut t);
    t.next_session();
    run_to_waiting(&mut t);
    t.next_session();
    assert_eq!(t.get_cycles_complete(), 1);
    run_to_waiting(&mut t);
    assert!(t.stop());
    assert_eq!(t.get_state(), TimerState::Idle);
    assert_eq!(t.get_remaining(), 0);
    assert_eq!(t.get_cycles_complete(), 0);
}

#[test]
fn next_ignored_unless_waiting() {
    let mut t = started(settings(4, 1, 1, 2));
    let before = t.snapshot();
    t.next_session();
    assert_eq!(t.snapshot(), before);
}

#[test]
fn cycle_progression_with_two_cycles() {
    let mut t = started(settings(2, 1, 3, 2));
    assert_eq!(t.get_session(), TimerSession::Working);
    run_to_waiting(&mut t);
    t.next_session();
    assert_eq!(t.get_session(), TimerSession::Resting);
    assert_eq!(t.get_cycles_complete(), 0);
    assert_eq!(t.get_remaining(), 1);
    run_to_waiting(&mut t);
    t.next_session();
    assert_eq!(t.get_session(), TimerSession::Working);
    assert_eq!(t.get_cycles_complete(), 1);
    assert_eq!(t.get_remaining(), 2);
    run_to_waiting(&mut t);
    t.next_session();
    assert_eq!(t.get_session(), TimerSession::Break);
    assert_eq!(t.get_cycles_complete(), 1);
    assert_eq!(t.get_remaining(), 3);
    run_to_waiting(&mut t);
    t.next_session();
    assert_eq!(t.get_session(), TimerSession::Working);
    assert_eq!(t.get_cycles_complete(), 0);
    assert_eq!(t.get_state(), TimerState::CountDown);
}

#[test]
fn scenario_single_cycle_goes_straight_to_break() {
    let mut t = started(settings(2, 1, 1, 1));
    assert_eq!(t.snapshot(), TimerEvent { state: TimerState::CountDown, session: TimerSession::Working, remaining: 2, cycles_complete: 0 });
    t.tick();
    assert_eq!(t.snapshot(), TimerEvent { state: TimerState::CountDown, session: TimerSession::Working, remaining: 1, cycles_complete: 0 });
    t.tick();
    assert_eq!(t.snapshot(), TimerEvent { state: TimerState::Waiting, session: TimerSession::Working, remaining: 0, cycles_complete: 0 });
    t.next_session();
    assert_eq!(t.snapshot(), TimerEvent { state: TimerState::CountDown, session: TimerSession::Break, remaining: 1, cycles_complete: 0 });
    t.tick();
    assert_eq!(t.snapshot(), TimerEvent { state: TimerState::Waiting, session: TimerSession::Break, remaining: 0, cycles_complete: 0 });
    assert_eq!(t.get_remaining(), 0);
    t.next_session();
    assert_eq!(t.snapshot(), TimerEvent { state: TimerState::CountDown, session: TimerSession::Working, remaining: 2, cycles_complete: 0 });
}

#[test]
fn zero_cycle_limit_rests_after_work() {
    let mut t = started(settings(0, 0, 5, 0));
    run_to_waiting(&mut t);
    t.next_session();
    assert_eq!(t.get_session(), TimerSession::Resting);
}

#[test]
fn run_step_reports_engine_after_tick() {
    let mut t = started(settings(3, 1, 1, 2));
    let out = t.run_step(None);
    assert!(!out.finished);
    assert_eq!(out.event, TimerEvent { state: TimerState::CountDown, session: TimerSession::Working, remaining: 2, cycles_complete: 0 });
    assert_eq!(out.event, t.snapshot());
}

#[test]
fn run_step_pause_skips_tick() {
    let mut t = started(settings(3, 1, 1, 2));
    let out = t.run_step(Some(TimerCommand::Pause));
    assert_eq!(out.event.state, TimerState::Paused);
    assert_eq!(out.event.remaining, 3);
    let out = t.run_step(Some(TimerCommand::Resume));
    assert_eq!(out.event.state, TimerState::CountDown);
    assert_eq!(out.event.remaining, 2);
}

#[test]
fn run_step_stop_while_counting_is_ignored() {
    let mut t = started(settings(3, 1, 1, 2));
    let out = t.run_step(Some(TimerCommand::Stop));
    assert!(!out.finished);
    assert_eq!(out.event.state, TimerState::CountDown);
    assert_eq!(out.event.remaining, 2);
}

#[test]
fn run_step_accepted_stop_finishes_with_idle_event() {
    let mut t = started(settings(3, 1, 1, 2));
    t.run_step(Some(TimerCommand::Pause));
    let out = t.run_step(Some(TimerCommand::Stop));
    assert!(out.finished);
    assert_eq!(out.event, TimerEvent { state: TimerState::Idle, session: TimerSession::Working, remaining: 0, cycles_complete: 0 });
}

#[test]
fn run_step_next_starts_session_and_ticks() {
    let mut t = started(settings(0, 4, 1, 2));
    let out = t.run_step(None);
    assert_eq!(out.event.state, TimerState::Waiting);
    let out = t.run_step(Some(TimerCommand::Next));
    assert_eq!(out.event, TimerEvent { state: TimerState::CountDown, session: TimerSession::Resting, remaining: 3, cycles_complete: 0 });
}

#[test]
fn state_and_session_labels() {
    assert_eq!(TimerState::Idle.as_str(), "Idle");
    assert_eq!(TimerState::CountDown.as_str(), "Count Down");
    assert_eq!(TimerState::Waiting.as_str(), "Waiting");
    assert_eq!(TimerState::Paused.as_str(), "Paused");
    assert_eq!(TimerSession::Working.as_str(), "Working");
    assert_eq!(TimerSession::Resting.as_str(), "Resting");
    assert_eq!(TimerSession::Break.as_str(), "Break");
}
