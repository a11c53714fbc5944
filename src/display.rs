use vstd::prelude::*;

use crate::timer::{TimerCommand, TimerEvent, TimerState};

verus! {

/// The character of a decimal digit.
pub open spec fn digit_char(d: nat) -> char {
    if d == 0 { '0' }
    else if d == 1 { '1' }
    else if d == 2 { '2' }
    else if d == 3 { '3' }
    else if d == 4 { '4' }
    else if d == 5 { '5' }
    else if d == 6 { '6' }
    else if d == 7 { '7' }
    else if d == 8 { '8' }
    else { '9' }
}

/// The decimal digits of `n`, without leading zeros.
pub open spec fn decimal(n: nat) -> Seq<char>
    decreases n,
{
    if n < 10 {
        seq![digit_char(n)]
    } else {
        decimal(n / 10).push(digit_char(n % 10))
    }
}

/// The decimal digits of `n`, padded with a zero to at least two.
pub open spec fn two_digits(n: nat) -> Seq<char> {
    if n < 10 {
        seq!['0'].add(decimal(n))
    } else {
        decimal(n)
    }
}

/// A number of seconds as minutes and seconds, `MM:SS`.
pub open spec fn display_time(time_seconds: nat) -> Seq<char> {
    two_digits(time_seconds / 60) + seq![':'] + two_digits(time_seconds % 60)
}

fn digit_str(d: u32) -> (r: &'static str)
    requires
        d < 10,
    ensures
        r@ == seq![digit_char(d as nat)],
{
    proof {
        reveal_strlit("0");
        reveal_strlit("1");
        reveal_strlit("2");
        reveal_strlit("3");
        reveal_strlit("4");
        reveal_strlit("5");
        reveal_strlit("6");
        reveal_strlit("7");
        reveal_strlit("8");
        reveal_strlit("9");
    }
    if d == 0 { "0" }
    else if d == 1 { "1" }
    else if d == 2 { "2" }
    else if d == 3 { "3" }
    else if d == 4 { "4" }
    else if d == 5 { "5" }
    else if d == 6 { "6" }
    else if d == 7 { "7" }
    else if d == 8 { "8" }
    else { "9" }
}

fn push_decimal(s: &mut String, n: u32)
    ensures
        final(s)@ == old(s)@ + decimal(n as nat),
    decreases n,
{
    if n >= 10 {
        push_decimal(s, n / 10);
    }
    s.append(digit_str(n % 10));
    assert(final(s)@ =~= old(s)@ + decimal(n as nat));
}

fn push_two_digits(s: &mut String, n: u32)
    ensures
        final(s)@ == old(s)@ + two_digits(n as nat),
{
    proof {
        reveal_strlit("0");
    }
    if n < 10 {
        s.append("0");
    }
    push_decimal(s, n);
    assert(final(s)@ =~= old(s)@ + two_digits(n as nat));
}

/// The remaining time as shown to the user: minutes and seconds, each at
/// least two digits.
pub fn get_display_time(time_seconds: u32) -> (r: String)
    ensures
        r@ == display_time(time_seconds as nat),
{
    proof {
        reveal_strlit(":");
    }
    let mut s = String::new();
    push_two_digits(&mut s, time_seconds / 60);
    s.append(":");
    push_two_digits(&mut s, time_seconds % 60);
    assert(s@ =~= display_time(time_seconds as nat));
    s
}

/// The keys on offer in each state.
pub fn get_display_commands(state: TimerState) -> (r: &'static str)
    ensures
        state is CountDown ==> r@ == "Press 1 to Pause"@,
        state is Paused ==> r@ == "Press 1 to Resume, Press 2 to Exit"@,
        state is Waiting ==> r@ == "Press 1 to advance session, Press 2 to Exit"@,
        state is Idle ==> r@ == "Returning to Main Menu"@,
{
    match state {
        TimerState::CountDown => "Press 1 to Pause",
        TimerState::Paused => "Press 1 to Resume, Press 2 to Exit",
        TimerState::Waiting => "Press 1 to advance session, Press 2 to Exit",
        TimerState::Idle => "Returning to Main Menu",
    }
}

/// The command a key asks for in the last state seen, if any: `1` pauses,
/// resumes or advances, `2` stops from a paused or waiting timer.
pub open spec fn key_command(state: TimerState, key: char) -> Option<TimerCommand> {
    if key == '1' {
        match state {
            TimerState::CountDown => Some(TimerCommand::Pause),
            TimerState::Paused => Some(TimerCommand::Resume),
            TimerState::Waiting => Some(TimerCommand::Next),
            TimerState::Idle => None,
        }
    } else if key == '2' && (state is Paused || state is Waiting) {
        Some(TimerCommand::Stop)
    } else {
        None
    }
}

pub fn command_for_key(state: TimerState, key: char) -> (r: Option<TimerCommand>)
    ensures
        r == key_command(state, key),
{
    match (state, key) {
        (TimerState::CountDown, '1') => Some(TimerCommand::Pause),
        (TimerState::Paused, '1') => Some(TimerCommand::Resume),
        (TimerState::Paused, '2') => Some(TimerCommand::Stop),
        (TimerState::Waiting, '1') => Some(TimerCommand::Next),
        (TimerState::Waiting, '2') => Some(TimerCommand::Stop),
        _ => None,
    }
}

/// Whether a screen showing a timer should be redrawn for a snapshot in
/// `state`, and whether a waiting or paused screen has been drawn afterwards.
/// A waiting or paused timer is drawn once, not on every snapshot.
pub fn redraw_decision(state: TimerState, has_drawn_waiting: bool) -> (r: (bool, bool))
    ensures
        r.0 == !((state is Waiting || state is Paused) && has_drawn_waiting),
        r.1 == (state is Waiting || state is Paused),
{
    let holding = match state {
        TimerState::Waiting | TimerState::Paused => true,
        _ => false,
    };
    let redraw = !(holding && has_drawn_waiting);
    (redraw, holding)
}

/// Whether the timer screen should close after a poll: the timer reported
/// that it is idle, or nothing came and its handle is gone.
pub fn timer_finished(polled: Option<TimerEvent>, disconnected: bool) -> (r: bool)
    ensures
        r == ((polled is Some && polled->Some_0.state is Idle) || (polled is None
            && disconnected)),
{
    match polled {
        Some(event) => match event.state {
            TimerState::Idle => true,
            _ => false,
        },
        None => disconnected,
    }
}

} // verus!
