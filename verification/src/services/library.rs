//! Browsing the media library.
use vstd::prelude::*;

verus! {

/// Service for managing media library operations, holding the application configuration
/// it was made with.
pub struct LibraryService<C> {
    config: C,
}

/// Library statistics.
#[derive(Debug, Default, Clone, Copy)]
pub struct LibraryStats {
    /// Total number of movies
    pub movie_count: u32,
    /// Total number of TV shows
    pub show_count: u32,
    /// Total number of episodes
    pub episode_count: u32,
    /// Total number of music albums
    pub album_count: u32,
    /// Total number of songs
    pub song_count: u32,
}

/// Search result item.
#[derive(Debug)]
pub struct SearchResult {
    /// Item ID
    pub id: String,
    /// Item name
    pub name: String,
    /// Item type (movie, show, episode, etc.)
    pub item_type: String,
    /// Item overview/description
    pub overview: Option<String>,
}

impl<C> LibraryService<C> {
    /// The configuration the service was made with.
    pub closed spec fn config_view(&self) -> C {
        self.config
    }

    /// A library service over the given configuration.
    pub fn new(config: C) -> (s: LibraryService<C>)
        ensures
            s.config_view() == config,
    {
        LibraryService { config }
    }

    /// Library statistics: no statistics are gathered yet, so every count is zero.
    pub fn get_library_stats(&self) -> (s: LibraryStats)
        ensures
            s.movie_count == 0 && s.show_count == 0 && s.episode_count == 0 && s.album_count == 0
                && s.song_count == 0,
    {
        LibraryStats { movie_count: 0, show_count: 0, episode_count: 0, album_count: 0, song_count: 0 }
    }

    /// Searches the library: searching is not available yet, so nothing is found.
    pub fn search(&self, query: &str) -> (r: Vec<SearchResult>)
        ensures
            r@.len() == 0,
    {
        Vec::new()
    }
}

} // verus!
