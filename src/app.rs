use vstd::prelude::*;

use crate::config_manager::{default_settings_spec, ConfigManager, Settings};
use crate::handle::{send_command, try_receive, EventPoll, TimerHandle};
use crate::timer::{TimerCommand, TimerEvent};

verus! {

/// The application's state: its settings and the handle of the running
/// timer, if one runs.
pub struct PomodoroApp {
    config: ConfigManager,
    timer_handle: Option<TimerHandle>,
}

impl PomodoroApp {
    pub closed spec fn settings_spec(&self) -> Settings {
        self.config.settings_spec()
    }

    /// The handle of the running timer, if any.
    pub closed spec fn handle_spec(&self) -> Option<TimerHandle> {
        self.timer_handle
    }

    /// An application with all-zero settings and no timer.
    pub fn new() -> (r: PomodoroApp)
        ensures
            r.settings_spec() == (Settings {
                work_seconds: 0,
                relief_seconds: 0,
                break_seconds: 0,
                work_relief_cycles: 0,
            }),
            r.handle_spec() is None,
    {
        PomodoroApp { config: ConfigManager::new(), timer_handle: None }
    }

    /// Takes the settings read from the configuration file, if they could be
    /// read, else the defaults; returns whether the defaults should be saved.
    pub fn init(&mut self, loaded: Option<Settings>) -> (save_defaults: bool)
        ensures
            save_defaults == (loaded is None),
            loaded is Some ==> final(self).settings_spec() == loaded->Some_0,
            loaded is None ==> final(self).settings_spec() == default_settings_spec(),
            final(self).handle_spec() == old(self).handle_spec(),
    {
        self.config.build(loaded)
    }

    pub fn get_settings(&self) -> (r: &Settings)
        ensures
            *r == self.settings_spec(),
    {
        self.config.get_settings()
    }

    /// Replaces the settings; writing them to the configuration file is left
    /// to the caller.
    pub fn save_config(&mut self, new_settings: Settings)
        ensures
            final(self).settings_spec() == new_settings,
            final(self).handle_spec() == old(self).handle_spec(),
    {
        self.config.set_settings(new_settings);
    }

    /// Keeps the handle of a timer that was started with the current settings.
    pub fn start_timer(&mut self, handle: TimerHandle)
        ensures
            final(self).handle_spec() == Some(handle),
            final(self).settings_spec() == old(self).settings_spec(),
    {
        self.timer_handle = Some(handle);
    }

    fn send(&self, cmd: TimerCommand) {
        if let Some(handle) = &self.timer_handle {
            send_command(&handle.cmd_tx, cmd);
        }
    }

    /// Asks the running timer, if any, to pause.
    pub fn pause_timer(&self) {
        self.send(TimerCommand::Pause);
    }

    /// Asks the running timer, if any, to resume.
    pub fn resume_timer(&self) {
        self.send(TimerCommand::Resume);
    }

    /// Asks the running timer, if any, to stop.
    pub fn stop_timer(&self) {
        self.send(TimerCommand::Stop);
    }

    /// Asks the running timer, if any, to move on to the next session.
    pub fn advance_timer(&self) {
        self.send(TimerCommand::Next);
    }

    /// Acts on what a look at the event channel found: a snapshot is handed
    /// on, and a closed channel means the timer is gone, so its handle is
    /// dropped.
    pub fn apply_poll(&mut self, polled: EventPoll) -> (r: Option<TimerEvent>)
        ensures
            polled is Received ==> r == Some(polled->Received_0),
            !(polled is Received) ==> r is None,
            polled is Disconnected ==> final(self).handle_spec() is None,
            !(polled is Disconnected) ==> final(self).handle_spec() == old(self).handle_spec(),
            final(self).settings_spec() == old(self).settings_spec(),
    {
        match polled {
            EventPoll::Received(evt) => Some(evt),
            EventPoll::Empty => None,
            EventPoll::Disconnected => {
                self.timer_handle = None;
                None
            },
        }
    }

    /// Takes the next snapshot from the running timer without waiting. Without
    /// a timer there is none; when the timer has ended its handle is dropped.
    pub fn poll_timer_event(&mut self) -> (r: Option<TimerEvent>)
        ensures
            old(self).handle_spec() is None ==> r is None && final(self).handle_spec() is None,
            final(self).handle_spec() is None || final(self).handle_spec()
                == old(self).handle_spec(),
            r is Some ==> final(self).handle_spec() == old(self).handle_spec(),
            final(self).settings_spec() == old(self).settings_spec(),
    {
        let polled = match &self.timer_handle {
            Some(handle) => try_receive(&handle.evt_rx),
            None => EventPoll::Empty,
        };
        self.apply_poll(polled)
    }

    /// Whether no timer is running.
    pub fn is_timer_disconnected(&self) -> (r: bool)
        ensures
            r == (self.handle_spec() is None),
    {
        if let None = self.timer_handle {
            true
        } else {
            false
        }
    }
}

} // verus!
