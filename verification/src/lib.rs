mod error;
mod song;
mod song_chord;
mod song_meta;
mod song_position;
mod song_settings;

pub mod prelude;
