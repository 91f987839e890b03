//! Media playback control and its state.
use vstd::prelude::*;

verus! {

/// Playback state enumeration.
#[derive(Debug, Clone, Copy, PartialEq, Eq, Structural)]
pub enum PlaybackState {
    /// Not playing anything
    Stopped,
    /// Currently playing
    Playing,
    /// Playback is paused
    Paused,
    /// Buffering content
    Buffering,
}

/// Service for managing media playback, holding the application configuration it was
/// made with and the current playback state.
pub struct PlaybackService<C> {
    config: C,
    state: PlaybackState,
}

impl<C> PlaybackService<C> {
    /// The configuration the service was made with.
    pub closed spec fn config_view(&self) -> C {
        self.config
    }

    /// The current playback state.
    pub closed spec fn state_view(&self) -> PlaybackState {
        self.state
    }

    /// A stopped playback service over the given configuration.
    pub fn new(config: C) -> (s: PlaybackService<C>)
        ensures
            s.config_view() == config,
            s.state_view() == PlaybackState::Stopped,
    {
        PlaybackService { config, state: PlaybackState::Stopped }
    }

    /// Starts playing an item: playback is then playing, whatever it was before.
    pub fn play(&mut self, item_id: &str)
        ensures
            final(self).state_view() == PlaybackState::Playing,
            final(self).config_view() == old(self).config_view(),
    {
        self.state = PlaybackState::Playing;
    }

    /// Pauses playback: playback is then paused, whatever it was before.
    pub fn pause(&mut self)
        ensures
            final(self).state_view() == PlaybackState::Paused,
            final(self).config_view() == old(self).config_view(),
    {
        self.state = PlaybackState::Paused;
    }

    /// Stops playback: playback is then stopped, whatever it was before.
    pub fn stop(&mut self)
        ensures
            final(self).state_view() == PlaybackState::Stopped,
            final(self).config_view() == old(self).config_view(),
    {
        self.state = PlaybackState::Stopped;
    }

    /// The current playback state.
    pub fn get_state(&self) -> (s: &PlaybackState)
        ensures
            *s == self.state_view(),
    {
        &self.state
    }
}

} // verus!
