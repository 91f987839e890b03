//! The application's services: library browsing, playback state and settings.
pub mod library;
pub mod playback;
pub mod settings;
