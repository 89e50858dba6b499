use vstd::prelude::*;

use crate::song_meta::SongMeta;
use crate::song_settings::SongSettings;

verus! {

/// The top-level container: a song owns its description and its timeline
/// configuration.
pub struct Song {
    song_meta: SongMeta,
    song_settings: SongSettings,
}

impl Song {
    pub closed spec fn spec_song_meta(&self) -> SongMeta {
        self.song_meta
    }

    pub closed spec fn spec_song_settings(&self) -> SongSettings {
        self.song_settings
    }

    /// A song with an empty description and the conventional starting
    /// configuration.
    pub fn new() -> (r: Self)
        ensures
            r.spec_song_meta().spec_is_empty(),
            r.spec_song_settings().spec_is_initial(),
    {
        Song { song_meta: SongMeta::default(), song_settings: SongSettings::default() }
    }
}

impl Default for Song {
    fn default() -> (r: Self)
        ensures
            r.spec_song_meta().spec_is_empty(),
            r.spec_song_settings().spec_is_initial(),
    {
        Song::new()
    }
}

} // verus!
