//! Theme settings kept across sessions, whether the interface is light or dark, and where
//! the theme's colours come from.
//!
//! The colour type is a parameter: the application's colours hold floating-point channels.
use vstd::prelude::*;
use crate::text::same_text;
use crate::ui::theme::wallpaper_monitor::duration_nanos_of;

verus! {

/// Shortest allowed theme transition, in milliseconds.
pub const MIN_TRANSITION_MS: u64 = 50;

/// Longest allowed theme transition, in milliseconds.
pub const MAX_TRANSITION_MS: u64 = 2000;

/// A span of whole milliseconds (`Duration::from_millis`): it holds `millis` times a
/// million nanoseconds.
pub assume_specification[ core::time::Duration::from_millis ](millis: u64) -> (d: core::time::Duration)
    ensures
        duration_nanos_of(d) == millis * 1_000_000,
;

/// Theme settings for persistence across app sessions.
#[derive(Debug, Clone)]
pub struct ThemeSettings<C> {
    /// Whether dynamic theming based on wallpaper is enabled
    pub dynamic_enabled: bool,
    /// Custom color selected by the user (when not using dynamic theming)
    pub custom_color: Option<C>,
    /// Path to the last processed wallpaper (for change detection)
    pub last_wallpaper_path: Option<String>,
    /// Whether to animate theme transitions
    pub transition_animations: bool,
    /// Whether to follow system dark/light mode preference
    pub follow_system_theme: bool,
    /// Duration of theme transition animations in milliseconds
    pub transition_duration_ms: u64,
}

/// The duration a transition is clamped to.
pub open spec fn clamped_duration(ms: u64) -> u64 {
    if ms < MIN_TRANSITION_MS {
        MIN_TRANSITION_MS
    } else if ms > MAX_TRANSITION_MS {
        MAX_TRANSITION_MS
    } else {
        ms
    }
}

/// Whether two optional paths differ.
pub open spec fn paths_differ(a: Option<String>, b: Option<String>) -> bool {
    match (a, b) {
        (Some(x), Some(y)) => x@ != y@,
        (None, None) => false,
        _ => true,
    }
}

impl<C> ThemeSettings<C> {
    /// Whether these are the default settings: dynamic theming, no custom colour, no
    /// wallpaper seen, animated transitions of 300 ms, following the system.
    pub open spec fn is_default(&self) -> bool {
        &&& self.dynamic_enabled
        &&& self.custom_color is None
        &&& self.last_wallpaper_path is None
        &&& self.transition_animations
        &&& self.follow_system_theme
        &&& self.transition_duration_ms == 300
    }

    /// Whether the settings are consistent: the transition within bounds, and no custom
    /// colour while dynamic theming is on.
    pub open spec fn is_fixed(&self) -> bool {
        &&& MIN_TRANSITION_MS <= self.transition_duration_ms <= MAX_TRANSITION_MS
        &&& !(self.dynamic_enabled && self.custom_color is Some)
    }

    /// The default settings.
    pub fn new() -> (s: ThemeSettings<C>)
        ensures
            s.is_default(),
    {
        ThemeSettings {
            dynamic_enabled: true,
            custom_color: None,
            last_wallpaper_path: None,
            transition_animations: true,
            follow_system_theme: true,
            transition_duration_ms: 300,
        }
    }

    /// The default settings (dynamic theming is on in them).
    pub fn with_dynamic_enabled() -> (s: ThemeSettings<C>)
        ensures
            s.is_default(),
    {
        Self::new()
    }

    /// The default settings with a custom colour and dynamic theming off.
    pub fn with_custom_color(color: C) -> (s: ThemeSettings<C>)
        ensures
            !s.dynamic_enabled,
            s.custom_color == Some(color),
            s.last_wallpaper_path is None,
            s.transition_animations,
            s.follow_system_theme,
            s.transition_duration_ms == 300,
    {
        ThemeSettings { dynamic_enabled: false, custom_color: Some(color), ..Self::new() }
    }

    /// Turns dynamic theming on or off; turning it on clears the custom colour.
    pub fn set_dynamic_enabled(&mut self, enabled: bool)
        ensures
            final(self).dynamic_enabled == enabled,
            final(self).custom_color == if enabled {
                None
            } else {
                old(self).custom_color
            },
            final(self).last_wallpaper_path == old(self).last_wallpaper_path,
            final(self).transition_animations == old(self).transition_animations,
            final(self).follow_system_theme == old(self).follow_system_theme,
            final(self).transition_duration_ms == old(self).transition_duration_ms,
    {
        self.dynamic_enabled = enabled;
        if enabled {
            self.custom_color = None;
        }
    }

    /// Sets a custom colour, which turns dynamic theming off.
    pub fn set_custom_color(&mut self, color: C)
        ensures
            final(self).custom_color == Some(color),
            !final(self).dynamic_enabled,
            final(self).last_wallpaper_path == old(self).last_wallpaper_path,
            final(self).transition_animations == old(self).transition_animations,
            final(self).follow_system_theme == old(self).follow_system_theme,
            final(self).transition_duration_ms == old(self).transition_duration_ms,
    {
        self.custom_color = Some(color);
        self.dynamic_enabled = false;
    }

    /// Clears the custom colour.
    pub fn clear_custom_color(&mut self)
        ensures
            final(self).custom_color is None,
            final(self).dynamic_enabled == old(self).dynamic_enabled,
            final(self).last_wallpaper_path == old(self).last_wallpaper_path,
            final(self).transition_animations == old(self).transition_animations,
            final(self).follow_system_theme == old(self).follow_system_theme,
            final(self).transition_duration_ms == old(self).transition_duration_ms,
    {
        self.custom_color = None;
    }

    /// Records the wallpaper last processed.
    pub fn update_wallpaper_path(&mut self, path: Option<String>)
        ensures
            final(self).last_wallpaper_path == path,
            final(self).dynamic_enabled == old(self).dynamic_enabled,
            final(self).custom_color == old(self).custom_color,
            final(self).transition_animations == old(self).transition_animations,
            final(self).follow_system_theme == old(self).follow_system_theme,
            final(self).transition_duration_ms == old(self).transition_duration_ms,
    {
        self.last_wallpaper_path = path;
    }

    /// Whether the wallpaper differs from the one last processed.
    pub fn has_wallpaper_changed(&self, current_path: &Option<String>) -> (b: bool)
        ensures
            b == paths_differ(self.last_wallpaper_path, *current_path),
    {
        match (&self.last_wallpaper_path, current_path) {
            (Some(a), Some(b)) => !same_text(a.as_str(), b.as_str()),
            (None, None) => false,
            _ => true,
        }
    }

    /// Turns transition animations on or off.
    pub fn set_animations_enabled(&mut self, enabled: bool)
        ensures
            final(self).transition_animations == enabled,
            final(self).dynamic_enabled == old(self).dynamic_enabled,
            final(self).custom_color == old(self).custom_color,
            final(self).last_wallpaper_path == old(self).last_wallpaper_path,
            final(self).follow_system_theme == old(self).follow_system_theme,
            final(self).transition_duration_ms == old(self).transition_duration_ms,
    {
        self.transition_animations = enabled;
    }

    /// Sets the transition duration in milliseconds.
    pub fn set_transition_duration(&mut self, duration_ms: u64)
        ensures
            final(self).transition_duration_ms == duration_ms,
            final(self).dynamic_enabled == old(self).dynamic_enabled,
            final(self).custom_color == old(self).custom_color,
            final(self).last_wallpaper_path == old(self).last_wallpaper_path,
            final(self).transition_animations == old(self).transition_animations,
            final(self).follow_system_theme == old(self).follow_system_theme,
    {
        self.transition_duration_ms = duration_ms;
    }

    /// The transition duration as a `Duration` of that many milliseconds.
    pub fn get_transition_duration(&self) -> (d: std::time::Duration)
        ensures
            duration_nanos_of(d) == self.transition_duration_ms * 1_000_000,
    {
        std::time::Duration::from_millis(self.transition_duration_ms)
    }

    /// Turns following the system's light or dark mode on or off.
    pub fn set_follow_system_theme(&mut self, follow: bool)
        ensures
            final(self).follow_system_theme == follow,
            final(self).dynamic_enabled == old(self).dynamic_enabled,
            final(self).custom_color == old(self).custom_color,
            final(self).last_wallpaper_path == old(self).last_wallpaper_path,
            final(self).transition_animations == old(self).transition_animations,
            final(self).transition_duration_ms == old(self).transition_duration_ms,
    {
        self.follow_system_theme = follow;
    }

    /// Resets every setting to its default.
    pub fn reset_to_defaults(&mut self)
        ensures
            final(self).is_default(),
    {
        *self = Self::new();
    }

    /// Brings the transition duration within bounds, and drops the custom colour when
    /// dynamic theming is on.
    pub fn validate_and_fix(&mut self)
        ensures
            final(self).transition_duration_ms == clamped_duration(old(self).transition_duration_ms),
            final(self).custom_color == if old(self).dynamic_enabled {
                None
            } else {
                old(self).custom_color
            },
            final(self).dynamic_enabled == old(self).dynamic_enabled,
            final(self).last_wallpaper_path == old(self).last_wallpaper_path,
            final(self).transition_animations == old(self).transition_animations,
            final(self).follow_system_theme == old(self).follow_system_theme,
            final(self).is_fixed(),
    {
        if self.transition_duration_ms < MIN_TRANSITION_MS {
            self.transition_duration_ms = MIN_TRANSITION_MS;
        } else if self.transition_duration_ms > MAX_TRANSITION_MS {
            self.transition_duration_ms = MAX_TRANSITION_MS;
        }
        if self.dynamic_enabled && self.custom_color.is_some() {
            self.custom_color = None;
        }
    }

    /// Whether the settings name a colour source: dynamic theming or a custom colour.
    pub fn is_valid(&self) -> (b: bool)
        ensures
            b == (self.dynamic_enabled || self.custom_color is Some),
    {
        self.dynamic_enabled || self.custom_color.is_some()
    }
}

impl<C> Default for ThemeSettings<C> {
    /// The default settings.
    fn default() -> (s: ThemeSettings<C>)
        ensures
            s.is_default(),
    {
        ThemeSettings::new()
    }
}

/// Fixing settings changes nothing in settings already fixed.
pub proof fn law_fix_is_idempotent(ms: u64)
    ensures
        clamped_duration(clamped_duration(ms)) == clamped_duration(ms),
        MIN_TRANSITION_MS <= clamped_duration(ms) <= MAX_TRANSITION_MS,
{
}

/// Where the theme's colours come from.
#[derive(Debug, Clone, PartialEq, Eq)]
pub enum ThemeSource<C> {
    /// Use colors extracted from system wallpaper
    Wallpaper,
    /// Use a custom user-selected color
    Custom(C),
    /// Use default Material 3 colors
    Default,
}

impl<C: Copy> ThemeSource<C> {
    /// The custom colour, for a custom source.
    pub fn get_source_color(&self) -> (r: Option<C>)
        ensures
            r == match *self {
                ThemeSource::Custom(c) => Some(c),
                _ => None,
            },
    {
        match self {
            ThemeSource::Custom(color) => Some(*color),
            _ => None,
        }
    }
}

impl<C> ThemeSource<C> {
    /// Whether the wallpaper must be watched: for the wallpaper source only.
    pub fn requires_wallpaper_monitoring(&self) -> (b: bool)
        ensures
            b == (*self is Wallpaper),
    {
        match self {
            ThemeSource::Wallpaper => true,
            _ => false,
        }
    }
}

impl<C> Default for ThemeSource<C> {
    /// The wallpaper.
    fn default() -> (s: ThemeSource<C>)
        ensures
            s is Wallpaper,
    {
        ThemeSource::Wallpaper
    }
}

/// Theme mode enumeration.
#[derive(Debug, Clone, Copy, PartialEq, Eq, Structural)]
pub enum ThemeMode {
    Light,
    Dark,
    System,
}

impl ThemeMode {
    /// Whether the mode is dark: always for `Dark`, never for `Light`, and as the system
    /// is for `System`.
    pub open spec fn is_dark(self, system_is_dark: bool) -> bool {
        match self {
            ThemeMode::Light => false,
            ThemeMode::Dark => true,
            ThemeMode::System => system_is_dark,
        }
    }

    /// Resolves the mode to a boolean (true = dark, false = light).
    pub fn resolve(&self, system_is_dark: bool) -> (b: bool)
        ensures
            b == self.is_dark(system_is_dark),
    {
        match self {
            ThemeMode::Light => false,
            ThemeMode::Dark => true,
            ThemeMode::System => system_is_dark,
        }
    }
}

impl Default for ThemeMode {
    /// Follow the system.
    fn default() -> (m: ThemeMode)
        ensures
            m == ThemeMode::System,
    {
        ThemeMode::System
    }
}

} // verus!
