use vstd::prelude::*;

use crate::timer::{TimerModel, TimerState};

verus! {

/// Under repeated ticks from a countdown, the remaining time never grows, the
/// engine only counts down or waits, and once it waits further ticks change
/// nothing: the move to waiting happens once.
pub proof fn lemma_ticks_monotone(m: TimerModel, i: nat, j: nat)
    requires
        m.state is CountDown,
        i <= j,
    ensures
        m.ticked_n(j).remaining <= m.ticked_n(i).remaining,
        m.ticked_n(j).state is CountDown || m.ticked_n(j).state is Waiting,
        m.ticked_n(i).state is Waiting ==> m.ticked_n(j) == m.ticked_n(i),
    decreases j - i,
{
    lemma_ticks_stay_running(m, j);
    if i < j {
        lemma_ticks_monotone(m, i, (j - 1) as nat);
        lemma_ticks_stay_running(m, (j - 1) as nat);
    }
}

/// Ticks from a countdown leave it counting down or waiting.
proof fn lemma_ticks_stay_running(m: TimerModel, n: nat)
    requires
        m.state is CountDown,
    ensures
        m.ticked_n(n).state is CountDown || m.ticked_n(n).state is Waiting,
    decreases n,
{
    if n > 0 {
        lemma_ticks_stay_running(m, (n - 1) as nat);
    }
}

/// From a countdown with `r` seconds left, each tick before the last takes
/// one second off, and the tick that brings the time to zero also starts
/// waiting: after `max(r, 1)` ticks, and from then on, the engine waits at
/// zero.
pub proof fn lemma_countdown_reaches_waiting(m: TimerModel, k: nat)
    requires
        m.state is CountDown,
    ensures
        k < m.remaining ==> m.ticked_n(k) == (TimerModel { remaining: (m.remaining - k) as u32, ..m }),
        k >= 1 && k >= m.remaining ==> m.ticked_n(k) == (TimerModel {
            state: TimerState::Waiting,
            remaining: 0,
            ..m
        }),
    decreases k,
{
    if k > 0 {
        lemma_countdown_reaches_waiting(m, (k - 1) as nat);
    }
}

/// Pausing twice is pausing once, and resuming twice is resuming once;
/// resuming a running countdown changes nothing, as does pausing a paused one.
pub proof fn lemma_pause_resume_idempotent(m: TimerModel)
    ensures
        m.paused().paused() == m.paused(),
        m.resumed().resumed() == m.resumed(),
        m.state is CountDown ==> m.resumed() == m,
        m.state is Paused ==> m.paused() == m,
{
}

/// A stop is accepted exactly from a paused or waiting engine, and then leaves
/// it idle with no time and no cycles; otherwise nothing changes.
pub proof fn lemma_stop_gating(m: TimerModel)
    ensures
        m.stop_accepted() <==> (m.state is Paused || m.state is Waiting),
        m.stop_accepted() ==> m.stopped().state is Idle && m.stopped().remaining == 0
            && m.stopped().cycles_complete == 0,
        !m.stop_accepted() ==> m.stopped() == m,
{
}

} // verus!
