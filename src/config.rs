use vstd::prelude::*;

verus! {

/// Seconds between two save keystrokes when the settings give none.
pub const DEFAULT_INTERVAL_SECONDS: u64 = 60;

/// The settings record: read once at startup, then fixed.
pub struct Config {
    /// Seconds between two save keystrokes.
    pub interval_seconds: u64,
    /// Executable names that receive the keystroke, compared
    /// case-insensitively; an empty list means every application.
    pub target_apps: Vec<String>,
    /// Whether the pause/resume hotkey is registered.
    pub hotkey_enabled: bool,
}

/// The allow-list of a fresh settings file: common editors and office
/// programs.
pub open spec fn default_target_apps() -> Seq<Seq<char>> {
    seq!["notepad.exe"@, "Code.exe"@, "WINWORD.EXE"@, "EXCEL.EXE"@]
}

/// The allow-list as a sequence of character sequences.
pub open spec fn names_of(apps: Seq<String>) -> Seq<Seq<char>> {
    apps.map_values(|s: String| s@)
}

/// `c` holds the settings written when none exist yet.
pub open spec fn is_default_config(c: Config) -> bool {
    &&& c.interval_seconds == DEFAULT_INTERVAL_SECONDS
    &&& names_of(c.target_apps@) == default_target_apps()
    &&& c.hotkey_enabled
}

impl Default for Config {
    fn default() -> (r: Config)
        ensures
            is_default_config(r),
    {
        let target_apps = vec![
            String::from_str("notepad.exe"),
            String::from_str("Code.exe"),
            String::from_str("WINWORD.EXE"),
            String::from_str("EXCEL.EXE"),
        ];
        assert(names_of(target_apps@) =~= default_target_apps());
        Config { interval_seconds: DEFAULT_INTERVAL_SECONDS, target_apps, hotkey_enabled: true }
    }
}

impl Clone for Config {
    fn clone(&self) -> (r: Config)
        ensures
            r.interval_seconds == self.interval_seconds,
            r.target_apps@ == self.target_apps@,
            r.hotkey_enabled == self.hotkey_enabled,
    {
        let mut target_apps: Vec<String> = Vec::new();
        let mut i: usize = 0;
        while i < self.target_apps.len()
            invariant
                0 <= i <= self.target_apps@.len(),
                target_apps@.len() == i,
                forall|j: int| 0 <= j < i ==> #[trigger] target_apps@[j] == self.target_apps@[j],
            decreases self.target_apps@.len() - i,
        {
            target_apps.push(self.target_apps[i].clone());
            i = i + 1;
        }
        assert(target_apps@ =~= self.target_apps@);
        Config {
            interval_seconds: self.interval_seconds,
            target_apps,
            hotkey_enabled: self.hotkey_enabled,
        }
    }
}

/// What startup does with the settings: use them, and write them out first
/// when no settings file existed.
pub struct LoadPlan {
    pub config: Config,
    pub persist: bool,
}

/// Why stored settings cannot be used.
#[derive(Clone, Copy, Debug, PartialEq, Eq, Structural)]
pub enum ConfigError {
    /// The interval between two saves is zero seconds.
    ZeroInterval,
}

/// Stored settings that a run can use: the interval is at least one second.
pub open spec fn is_usable_config(c: Config) -> bool {
    c.interval_seconds > 0
}

impl Config {
    /// Decides the settings of this run from what the settings file held:
    /// `None` when it is absent, in which case the defaults are used and must
    /// be written back. Stored settings with a zero interval are malformed
    /// and refused, never repaired.
    pub fn plan_load(stored: Option<Config>) -> (r: Result<LoadPlan, ConfigError>)
        ensures
            r is Err <==> (stored is Some && !is_usable_config(stored->Some_0)),
            r is Err ==> r->Err_0 == ConfigError::ZeroInterval,
            r is Ok ==> r->Ok_0.persist == stored is None,
            r is Ok ==> is_usable_config(r->Ok_0.config),
            r is Ok && stored is Some ==> r->Ok_0.config == stored->Some_0,
            stored is None ==> r is Ok && is_default_config(r->Ok_0.config),
    {
        match stored {
            Some(config) => {
                if config.interval_seconds == 0 {
                    Err(ConfigError::ZeroInterval)
                } else {
                    Ok(LoadPlan { config, persist: false })
                }
            },
            None => Ok(LoadPlan { config: Config::default(), persist: true }),
        }
    }
}

} // verus!
