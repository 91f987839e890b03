//! The theme manager's own state: its settings and whether it is running. Applying
//! palettes, watching the wallpaper and storing settings are the interface's part.
use vstd::prelude::*;
use super::settings::ThemeSettings;

verus! {

/// The theme manager: the theme settings it follows and whether it is running.
#[derive(Debug, Clone)]
pub struct ThemeManager<C> {
    settings: ThemeSettings<C>,
    is_active: bool,
}

impl<C> ThemeManager<C> {
    /// The settings the manager follows.
    pub closed spec fn settings_view(&self) -> ThemeSettings<C> {
        self.settings
    }

    /// Whether the manager is running.
    pub closed spec fn active_view(&self) -> bool {
        self.is_active
    }

    /// A manager that is not running yet, with the default settings but dynamic theming
    /// off until it is set up.
    pub fn new() -> (m: ThemeManager<C>)
        ensures
            !m.active_view(),
            !m.settings_view().dynamic_enabled,
            m.settings_view().custom_color is None,
            m.settings_view().last_wallpaper_path is None,
            m.settings_view().transition_animations,
            m.settings_view().follow_system_theme,
            m.settings_view().transition_duration_ms == 300,
    {
        let mut settings = ThemeSettings::new();
        settings.dynamic_enabled = false;
        ThemeManager { settings, is_active: false }
    }

    /// Whether dynamic theming is on.
    pub fn is_dynamic_mode_enabled(&self) -> (b: bool)
        ensures
            b == self.settings_view().dynamic_enabled,
    {
        self.settings.dynamic_enabled
    }

    /// The settings the manager follows.
    pub fn get_settings(&self) -> (s: &ThemeSettings<C>)
        ensures
            *s == self.settings_view(),
    {
        &self.settings
    }

    /// Whether the manager is running.
    pub fn is_active(&self) -> (b: bool)
        ensures
            b == self.active_view(),
    {
        self.is_active
    }

    /// Stops the manager; its settings stay as they are. (The interface stops its
    /// wallpaper watcher.)
    pub fn shutdown(&mut self)
        ensures
            !final(self).active_view(),
            final(self).settings_view() == old(self).settings_view(),
    {
        self.is_active = false;
    }
}

impl<C: Copy> ThemeManager<C> {
    /// The custom colour, if one is set.
    pub fn get_custom_color(&self) -> (r: Option<C>)
        ensures
            r == self.settings_view().custom_color,
    {
        self.settings.custom_color
    }
}

impl<C> Default for ThemeManager<C> {
    /// A manager that is not running yet, with dynamic theming off.
    fn default() -> (m: ThemeManager<C>)
        ensures
            !m.active_view(),
            !m.settings_view().dynamic_enabled,
            m.settings_view().custom_color is None,
    {
        ThemeManager::new()
    }
}

} // verus!
