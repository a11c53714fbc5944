use vstd::prelude::*;

use crate::config_manager::Settings;

verus! {

/// A request from the caller to the running timer.
#[derive(Clone, Copy, Debug, PartialEq, Eq, Structural)]
pub enum TimerCommand {
    Pause,
    Resume,
    Stop,
    Next,
}

/// What the engine is doing.
#[derive(Clone, Copy, Debug, PartialEq, Eq, Structural)]
pub enum TimerState {
    Idle,
    CountDown,
    Waiting,
    Paused,
}

impl TimerState {
    /// A human-readable label for the state.
    pub fn as_str(&self) -> (r: &'static str)
        ensures
            *self is Idle ==> r@ == "Idle"@,
            *self is CountDown ==> r@ == "Count Down"@,
            *self is Waiting ==> r@ == "Waiting"@,
            *self is Paused ==> r@ == "Paused"@,
    {
        match self {
            TimerState::Idle => "Idle",
            TimerState::CountDown => "Count Down",
            TimerState::Waiting => "Waiting",
            TimerState::Paused => "Paused",
        }
    }
}

/// Which activity the current session is for.
#[derive(Clone, Copy, Debug, PartialEq, Eq, Structural)]
pub enum TimerSession {
    Working,
    Resting,
    Break,
}

impl TimerSession {
    /// A human-readable label for the session.
    pub fn as_str(&self) -> (r: &'static str)
        ensures
            *self is Working ==> r@ == "Working"@,
            *self is Resting ==> r@ == "Resting"@,
            *self is Break ==> r@ == "Break"@,
    {
        match self {
            TimerSession::Working => "Working",
            TimerSession::Resting => "Resting",
            TimerSession::Break => "Break",
        }
    }
}

/// A snapshot of the engine, as the runner reports it to the caller.
#[derive(Clone, Copy, Debug, PartialEq, Eq, Structural)]
pub struct TimerEvent {
    pub state: TimerState,
    pub session: TimerSession,
    pub remaining: u32,
    pub cycles_complete: u32,
}

/// The abstract value of a [`Timer`]: its settings and its four fields.
pub ghost struct TimerModel {
    pub settings: Settings,
    pub state: TimerState,
    pub session: TimerSession,
    pub remaining: u32,
    pub cycles_complete: u32,
}

impl TimerModel {
    /// The engine just after it was created.
    pub open spec fn created(settings: Settings) -> TimerModel {
        TimerModel {
            settings,
            state: TimerState::Idle,
            session: TimerSession::Working,
            remaining: 0,
            cycles_complete: 0,
        }
    }

    /// The engine at the start of a run: counting down a fresh working session.
    pub open spec fn started(self) -> TimerModel {
        TimerModel {
            state: TimerState::CountDown,
            session: TimerSession::Working,
            remaining: self.settings.work_seconds,
            cycles_complete: 0,
            ..self
        }
    }

    /// One second passes: only a countdown moves, and the tick that brings
    /// it to zero (or finds it there) also starts waiting.
    pub open spec fn ticked(self) -> TimerModel {
        if self.state is CountDown {
            if self.remaining > 1 {
                TimerModel { remaining: (self.remaining - 1) as u32, ..self }
            } else {
                TimerModel { state: TimerState::Waiting, remaining: 0, ..self }
            }
        } else {
            self
        }
    }

    /// Whether leaving a working session now begins the break.
    ///
    /// The count is compared with the limit less one, taken modulo 2^32: a
    /// limit of zero is reached only at the largest count.
    pub open spec fn break_due(self) -> bool {
        if self.settings.work_relief_cycles == 0 {
            self.cycles_complete == u32::MAX
        } else {
            self.cycles_complete == self.settings.work_relief_cycles - 1
        }
    }

    /// The cycle count after one more completed cycle, wrapping to zero past
    /// the largest count.
    pub open spec fn one_more_cycle(self) -> u32 {
        if self.cycles_complete == u32::MAX {
            0
        } else {
            (self.cycles_complete + 1) as u32
        }
    }

    /// The next session begins, if the engine is waiting.
    pub open spec fn advanced(self) -> TimerModel {
        if self.state is Waiting {
            match self.session {
                TimerSession::Working => if self.break_due() {
                    TimerModel {
                        state: TimerState::CountDown,
                        session: TimerSession::Break,
                        remaining: self.settings.break_seconds,
                        ..self
                    }
                } else {
                    TimerModel {
                        state: TimerState::CountDown,
                        session: TimerSession::Resting,
                        remaining: self.settings.relief_seconds,
                        ..self
                    }
                },
                TimerSession::Resting => TimerModel {
                    state: TimerState::CountDown,
                    session: TimerSession::Working,
                    remaining: self.settings.work_seconds,
                    cycles_complete: self.one_more_cycle(),
                    ..self
                },
                TimerSession::Break => TimerModel {
                    state: TimerState::CountDown,
                    session: TimerSession::Working,
                    remaining: self.settings.work_seconds,
                    cycles_complete: 0,
                    ..self
                },
            }
        } else {
            self
        }
    }

    /// A countdown is suspended; any other state is kept.
    pub open spec fn paused(self) -> TimerModel {
        if self.state is CountDown {
            TimerModel { state: TimerState::Paused, ..self }
        } else {
            self
        }
    }

    /// A suspended countdown goes on; any other state is kept.
    pub open spec fn resumed(self) -> TimerModel {
        if self.state is Paused {
            TimerModel { state: TimerState::CountDown, ..self }
        } else {
            self
        }
    }

    /// Stopping is accepted only at a point where nothing is counting down.
    pub open spec fn stop_accepted(self) -> bool {
        self.state is Paused || self.state is Waiting
    }

    /// The engine after a stop request.
    pub open spec fn stopped(self) -> TimerModel {
        if self.stop_accepted() {
            TimerModel { state: TimerState::Idle, remaining: 0, cycles_complete: 0, ..self }
        } else {
            self
        }
    }

    /// The snapshot that reports this engine value.
    pub open spec fn event(self) -> TimerEvent {
        TimerEvent {
            state: self.state,
            session: self.session,
            remaining: self.remaining,
            cycles_complete: self.cycles_complete,
        }
    }

    /// The engine after it handled one optional command, before any tick.
    pub open spec fn commanded(self, cmd: Option<TimerCommand>) -> TimerModel {
        match cmd {
            None => self,
            Some(TimerCommand::Pause) => self.paused(),
            Some(TimerCommand::Resume) => self.resumed(),
            Some(TimerCommand::Next) => self.advanced(),
            Some(TimerCommand::Stop) => self.stopped(),
        }
    }

    /// Whether a runner pass with this command ends the run.
    pub open spec fn finishes(self, cmd: Option<TimerCommand>) -> bool {
        cmd == Some(TimerCommand::Stop) && self.stop_accepted()
    }

    /// The engine after one runner pass: the command, then a tick unless the
    /// run ended.
    pub open spec fn stepped(self, cmd: Option<TimerCommand>) -> TimerModel {
        if self.finishes(cmd) {
            self.stopped()
        } else {
            self.commanded(cmd).ticked()
        }
    }

    /// The engine after `n` ticks.
    pub open spec fn ticked_n(self, n: nat) -> TimerModel
        decreases n,
    {
        if n == 0 {
            self
        } else {
            self.ticked_n((n - 1) as nat).ticked()
        }
    }
}

/// What one pass of the runner loop produces: the snapshot to report, and
/// whether the run has ended.
#[derive(Clone, Copy, Debug, PartialEq, Eq, Structural)]
pub struct StepOutcome {
    pub event: TimerEvent,
    pub finished: bool,
}

/// The timer engine: a state machine over sessions and a countdown.
pub struct Timer {
    timer_settings: Settings,
    current_state: TimerState,
    current_session: TimerSession,
    time_remaining: u32,
    cycles_complete: u32,
}

impl View for Timer {
    type V = TimerModel;

    closed spec fn view(&self) -> TimerModel {
        TimerModel {
            settings: self.timer_settings,
            state: self.current_state,
            session: self.current_session,
            remaining: self.time_remaining,
            cycles_complete: self.cycles_complete,
        }
    }
}

impl Timer {
    /// An idle engine holding a copy of the settings.
    pub fn new(settings: Settings) -> (r: Timer)
        ensures
            r@ == TimerModel::created(settings),
    {
        Timer {
            timer_settings: settings,
            current_state: TimerState::Idle,
            current_session: TimerSession::Working,
            time_remaining: 0,
            cycles_complete: 0,
        }
    }

    /// Begins a run with a working session.
    pub fn prepare_start(&mut self)
        ensures
            final(self)@ == old(self)@.started(),
    {
        self.current_state = TimerState::CountDown;
        self.current_session = TimerSession::Working;
        self.time_remaining = self.timer_settings.work_seconds;
        self.cycles_complete = 0;
    }

    /// One second of countdown.
    pub fn tick(&mut self)
        ensures
            final(self)@ == old(self)@.ticked(),
    {
        if let TimerState::CountDown = self.current_state {
            if self.time_remaining > 1 {
                self.time_remaining = self.time_remaining - 1;
            } else {
                self.time_remaining = 0;
                self.current_state = TimerState::Waiting;
            }
        }
    }

    /// Moves on from a finished session to the next one.
    pub fn next_session(&mut self)
        ensures
            final(self)@ == old(self)@.advanced(),
    {
        if let TimerState::Waiting = self.current_state {
            match self.current_session {
                TimerSession::Working => {
                    let limit = self.timer_settings.work_relief_cycles;
                    let due = if limit == 0 {
                        self.cycles_complete == u32::MAX
                    } else {
                        self.cycles_complete == limit - 1
                    };
                    if due {
                        self.current_session = TimerSession::Break;
                        self.time_remaining = self.timer_settings.break_seconds;
                    } else {
                        self.current_session = TimerSession::Resting;
                        self.time_remaining = self.timer_settings.relief_seconds;
                    }
                },
                TimerSession::Break | TimerSession::Resting => {
                    if let TimerSession::Break = self.current_session {
                        self.cycles_complete = 0;
                    } else {
                        self.cycles_complete = if self.cycles_complete == u32::MAX {
                            0
                        } else {
                            self.cycles_complete + 1
                        };
                    }
                    self.current_session = TimerSession::Working;
                    self.time_remaining = self.timer_settings.work_seconds;
                },
            }
            self.current_state = TimerState::CountDown;
        }
    }

    /// Suspends a countdown.
    pub fn pause(&mut self)
        ensures
            final(self)@ == old(self)@.paused(),
    {
        if let TimerState::CountDown = self.current_state {
            self.current_state = TimerState::Paused;
        }
    }

    /// Continues a suspended countdown.
    pub fn resume(&mut self)
        ensures
            final(self)@ == old(self)@.resumed(),
    {
        if let TimerState::Paused = self.current_state {
            self.current_state = TimerState::CountDown;
        }
    }

    /// Ends the run if the engine is paused or waiting; returns whether it did.
    pub fn stop(&mut self) -> (r: bool)
        ensures
            r == old(self)@.stop_accepted(),
            final(self)@ == old(self)@.stopped(),
            r ==> final(self)@.state is Idle && final(self)@.remaining == 0
                && final(self)@.cycles_complete == 0,
            !r ==> final(self)@ == old(self)@,
    {
        match self.current_state {
            TimerState::Paused | TimerState::Waiting => {
                self.current_state = TimerState::Idle;
                self.time_remaining = 0;
                self.cycles_complete = 0;
                true
            },
            _ => false,
        }
    }

    pub fn get_state(&self) -> (r: TimerState)
        ensures
            r == self@.state,
    {
        self.current_state
    }

    pub fn get_session(&self) -> (r: TimerSession)
        ensures
            r == self@.session,
    {
        self.current_session
    }

    pub fn get_remaining(&self) -> (r: u32)
        ensures
            r == self@.remaining,
    {
        self.time_remaining
    }

    pub fn get_cycles_complete(&self) -> (r: u32)
        ensures
            r == self@.cycles_complete,
    {
        self.cycles_complete
    }

    /// The engine's fields as a snapshot.
    pub fn snapshot(&self) -> (r: TimerEvent)
        ensures
            r == self@.event(),
    {
        TimerEvent {
            state: self.get_state(),
            session: self.get_session(),
            remaining: self.get_remaining(),
            cycles_complete: self.get_cycles_complete(),
        }
    }

    /// One pass of the runner loop, given the command received in it, if any.
    ///
    /// The command is dispatched first. An accepted stop ends the run at once
    /// and reports the idle engine; otherwise a countdown ticks once and the
    /// resulting engine is reported.
    pub fn run_step(&mut self, cmd: Option<TimerCommand>) -> (r: StepOutcome)
        ensures
            final(self)@ == old(self)@.stepped(cmd),
            r.finished == old(self)@.finishes(cmd),
            r.event == final(self)@.event(),
    {
        match cmd {
            Some(TimerCommand::Pause) => self.pause(),
            Some(TimerCommand::Resume) => self.resume(),
            Some(TimerCommand::Next) => self.next_session(),
            Some(TimerCommand::Stop) => {
                if self.stop() {
                    return StepOutcome { event: self.snapshot(), finished: true };
                }
            },
            None => {},
        }
        if let TimerState::CountDown = self.get_state() {
            self.tick();
        }
        StepOutcome { event: self.snapshot(), finished: false }
    }
}

} // verus!
