//! The shared mode state: which input mode is desired, whether enforcement is
//! enabled at all, which processes are exempt, and the user's hotkey and
//! notification preferences. Loading and saving the state is the caller's
//! business; the state transitions on it are verified here.

use vstd::prelude::*;

verus! {

/// Which of the two logical input modes is desired.
#[derive(Clone, Copy, Debug, PartialEq, Eq, Structural)]
pub enum ImeMode {
    /// Force the primary-language (Simplified Chinese) layout.
    ChineseOnly,
    /// Force the alternate (US English) layout.
    EnglishOnly,
}

/// The mode that a "switch mode" command moves to from `mode`.
pub open spec fn spec_opposite_mode(mode: ImeMode) -> ImeMode {
    match mode {
        ImeMode::ChineseOnly => ImeMode::EnglishOnly,
        ImeMode::EnglishOnly => ImeMode::ChineseOnly,
    }
}

/// Exec counterpart of [`spec_opposite_mode`].
pub fn opposite_mode(mode: ImeMode) -> (r: ImeMode)
    ensures
        r == spec_opposite_mode(mode),
{
    match mode {
        ImeMode::ChineseOnly => ImeMode::EnglishOnly,
        ImeMode::EnglishOnly => ImeMode::ChineseOnly,
    }
}

impl Default for ImeMode {
    /// The mode used when no configuration is present.
    fn default() -> (r: ImeMode)
        ensures
            r == ImeMode::ChineseOnly,
    {
        ImeMode::ChineseOnly
    }
}

/// The persistent mode state, single instance for the process lifetime.
pub struct Config {
    /// Whether the application registers itself to run at startup.
    pub autostart: bool,
    /// Executable names exempt from enforcement.
    pub excluded_apps: Vec<String>,
    /// Human-readable hotkey that toggles the master switch, e.g. "Alt+M".
    pub hotkey_toggle: Option<String>,
    /// Human-readable hotkey that switches the input mode, e.g. "CAPSLOCK".
    pub hotkey_switch_mode: Option<String>,
    /// The desired input mode.
    pub ime_mode: ImeMode,
    /// The master switch: when false, no enforcement is performed.
    pub master_switch: bool,
    /// Whether user-initiated toggles surface a balloon notification.
    pub show_notifications: bool,
}

/// True when `name` occurs among the executable names `apps`.
pub open spec fn spec_is_excluded(apps: Seq<Seq<char>>, name: Seq<char>) -> bool {
    exists|i: int| 0 <= i < apps.len() && apps[i] == name
}

impl Config {
    /// The view of the exclusion list as a sequence of character sequences.
    pub open spec fn excluded_view(self) -> Seq<Seq<char>> {
        self.excluded_apps@.map_values(|s: String| s@)
    }

    /// True when a process with executable name `name` is exempt.
    pub open spec fn spec_excludes(self, name: Seq<char>) -> bool {
        spec_is_excluded(self.excluded_view(), name)
    }

    /// True when `other` agrees with `self` on every field except
    /// `master_switch`.
    pub open spec fn same_but_master_switch(self, other: Config) -> bool {
        &&& other.autostart == self.autostart
        &&& other.excluded_apps == self.excluded_apps
        &&& other.hotkey_toggle == self.hotkey_toggle
        &&& other.hotkey_switch_mode == self.hotkey_switch_mode
        &&& other.ime_mode == self.ime_mode
        &&& other.show_notifications == self.show_notifications
    }

    /// True when `other` agrees with `self` on every field except `ime_mode`.
    pub open spec fn same_but_ime_mode(self, other: Config) -> bool {
        &&& other.autostart == self.autostart
        &&& other.excluded_apps == self.excluded_apps
        &&& other.hotkey_toggle == self.hotkey_toggle
        &&& other.hotkey_switch_mode == self.hotkey_switch_mode
        &&& other.master_switch == self.master_switch
        &&& other.show_notifications == self.show_notifications
    }

    /// True when `other` agrees with `self` on every field except `autostart`.
    pub open spec fn same_but_autostart(self, other: Config) -> bool {
        &&& other.excluded_apps == self.excluded_apps
        &&& other.hotkey_toggle == self.hotkey_toggle
        &&& other.hotkey_switch_mode == self.hotkey_switch_mode
        &&& other.ime_mode == self.ime_mode
        &&& other.master_switch == self.master_switch
        &&& other.show_notifications == self.show_notifications
    }

    /// True when `other` agrees with `self` on every field except
    /// `show_notifications`.
    pub open spec fn same_but_notifications(self, other: Config) -> bool {
        &&& other.autostart == self.autostart
        &&& other.excluded_apps == self.excluded_apps
        &&& other.hotkey_toggle == self.hotkey_toggle
        &&& other.hotkey_switch_mode == self.hotkey_switch_mode
        &&& other.ime_mode == self.ime_mode
        &&& other.master_switch == self.master_switch
    }

    /// Exec exclusion test: is `name` one of the exempt executable names?
    pub fn excludes(&self, name: &String) -> (r: bool)
        ensures
            r == self.spec_excludes(name@),
    {
        let mut i: usize = 0;
        while i < self.excluded_apps.len()
            invariant
                i <= self.excluded_apps.len(),
                forall|j: int| 0 <= j < i ==> self.excluded_view()[j] != name@,
            decreases self.excluded_apps.len() - i,
        {
            if self.excluded_apps[i].eq(name) {
                assert(self.excluded_view()[i as int] == name@);
                return true;
            }
            i += 1;
        }
        false
    }
}

impl Default for Config {
    /// The built-in defaults used when the configuration file is missing or
    /// corrupt: primary-language mode, master switch on, one exclusion entry
    /// and the default hotkey strings.
    fn default() -> (r: Config)
        ensures
            r.autostart == false,
            r.excluded_apps@.len() == 1,
            r.excluded_apps@[0]@ == "ime-controller.exe"@,
            r.hotkey_toggle matches Some(s) && s@ == "Alt+M"@,
            r.hotkey_switch_mode matches Some(s) && s@ == "CAPSLOCK"@,
            r.ime_mode == ImeMode::ChineseOnly,
            r.master_switch == true,
            r.show_notifications == false,
    {
        let mut excluded_apps: Vec<String> = Vec::new();
        excluded_apps.push("ime-controller.exe".to_owned());
        Config {
            autostart: false,
            excluded_apps,
            hotkey_toggle: Some("Alt+M".to_owned()),
            hotkey_switch_mode: Some("CAPSLOCK".to_owned()),
            ime_mode: ImeMode::ChineseOnly,
            master_switch: true,
            show_notifications: false,
        }
    }
}

/// Flip the master switch. The caller persists the state and refreshes the
/// tray icon; the new switch position is returned for that purpose.
pub fn toggle_master_switch(config: &mut Config) -> (now_on: bool)
    ensures
        final(config).master_switch == !old(config).master_switch,
        old(config).same_but_master_switch(*final(config)),
        now_on == final(config).master_switch,
{
    config.master_switch = !config.master_switch;
    config.master_switch
}

/// Flip the run-at-startup preference. The caller mirrors the new value into
/// the registry and persists the state.
pub fn toggle_autostart(config: &mut Config) -> (now_on: bool)
    ensures
        final(config).autostart == !old(config).autostart,
        old(config).same_but_autostart(*final(config)),
        now_on == final(config).autostart,
{
    config.autostart = !config.autostart;
    config.autostart
}

/// Flip the notification preference.
pub fn toggle_notifications(config: &mut Config) -> (now_on: bool)
    ensures
        final(config).show_notifications == !old(config).show_notifications,
        old(config).same_but_notifications(*final(config)),
        now_on == final(config).show_notifications,
{
    config.show_notifications = !config.show_notifications;
    config.show_notifications
}

/// Set the desired input mode. The caller persists the state and applies the
/// mode to the focused window.
pub fn switch_ime_mode(config: &mut Config, mode: ImeMode)
    ensures
        final(config).ime_mode == mode,
        old(config).same_but_ime_mode(*final(config)),
{
    config.ime_mode = mode;
}

/// Adopt the autostart state found in the registry when it disagrees with the
/// configuration. Returns whether anything changed, so the caller knows to
/// persist.
pub fn sync_autostart_config(config: &mut Config, registry_autostart: bool) -> (changed: bool)
    ensures
        final(config).autostart == registry_autostart,
        old(config).same_but_autostart(*final(config)),
        changed == (old(config).autostart != registry_autostart),
{
    if config.autostart != registry_autostart {
        config.autostart = registry_autostart;
        true
    } else {
        false
    }
}

} // verus!
