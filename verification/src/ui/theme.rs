//! Theme modes, colour formats, the Material scheme options, and how the wallpaper that
//! drives a dynamic theme is found and watched.
pub mod color;
pub mod extractor;
pub mod manager;
pub mod material_colors;
pub mod settings;
pub mod wallpaper_monitor;
