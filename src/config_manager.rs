use vstd::prelude::*;

verus! {

/// The durations and cycle count a timer runs with.
///
/// No field is validated: zero values are carried through unchanged, and a
/// session of zero seconds simply ends on its first tick.
#[derive(Clone, Copy, Debug, PartialEq, Eq, Structural)]
pub struct Settings {
    pub work_seconds: u32,
    pub relief_seconds: u32,
    pub break_seconds: u32,
    pub work_relief_cycles: u32,
}

impl Default for Settings {
    fn default() -> (r: Settings)
        ensures
            r.work_seconds == 0,
            r.relief_seconds == 0,
            r.break_seconds == 0,
            r.work_relief_cycles == 0,
    {
        Settings { work_seconds: 0, relief_seconds: 0, break_seconds: 0, work_relief_cycles: 0 }
    }
}

/// The settings used when none could be loaded: twenty minutes of work,
/// twenty seconds of relief, two cycles, then a five minute break.
pub open spec fn default_settings_spec() -> Settings {
    Settings { work_seconds: 1200, relief_seconds: 20, break_seconds: 300, work_relief_cycles: 2 }
}

pub fn default_settings() -> (r: Settings)
    ensures
        r == default_settings_spec(),
{
    Settings { work_seconds: 1200, relief_seconds: 20, break_seconds: 300, work_relief_cycles: 2 }
}

/// Holds the settings the application works with. Reading and writing the
/// configuration file is left to the caller, who hands over what was read.
pub struct ConfigManager {
    settings: Settings,
}

impl ConfigManager {
    pub closed spec fn settings_spec(&self) -> Settings {
        self.settings
    }

    /// A manager holding all-zero settings until `build` is called.
    pub fn new() -> (r: ConfigManager)
        ensures
            r.settings_spec() == (Settings {
                work_seconds: 0,
                relief_seconds: 0,
                break_seconds: 0,
                work_relief_cycles: 0,
            }),
    {
        ConfigManager { settings: Settings::default() }
    }

    /// Takes the settings read from the configuration file, if they could be
    /// read. Without them it falls back to the defaults and returns true: the
    /// defaults should then be written back.
    pub fn build(&mut self, loaded: Option<Settings>) -> (save_defaults: bool)
        ensures
            save_defaults == (loaded is None),
            loaded is Some ==> final(self).settings_spec() == loaded->Some_0,
            loaded is None ==> final(self).settings_spec() == default_settings_spec(),
    {
        match loaded {
            Some(v) => {
                self.settings = v;
                false
            },
            None => {
                self.settings = default_settings();
                true
            },
        }
    }

    pub fn get_settings(&self) -> (r: &Settings)
        ensures
            *r == self.settings_spec(),
    {
        &self.settings
    }

    /// Replaces the settings held.
    pub fn set_settings(&mut self, settings: Settings)
        ensures
            final(self).settings_spec() == settings,
    {
        self.settings = settings;
    }
}

} // verus!
