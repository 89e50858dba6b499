use song_core::prelude::Chord;
use song_core::prelude::ChordFuntion;
use song_core::prelude::ChordType;
use song_core::prelude::NoteMod;
use song_core::prelude::NoteName;
use song_core::prelude::Positionable;
use song_core::prelude::Song;
use song_core::prelude::SongChord;
use song_core::prelude::SongSettings;

fn bar_of<T: Positionable>(entity: &T, settings: &SongSettings) -> u64 {
    entity
        .get_position()
        .get_as_bars_and_beats_on(settings)
        .expect("a valid configuration must convert")
        .bar
}

#[test]
fn note_names_render_with_accidentals() {
    assert_eq!(NoteName::C(NoteMod::Flat).to_string(), "Cb");
    assert_eq!(NoteName::C(NoteMod::Normal).to_string(), "C");
    assert_eq!(NoteName::C(NoteMod::Sharp).to_string(), "C#");
    assert_eq!(NoteName::D(NoteMod::Flat).to_string(), "Db");
    assert_eq!(NoteName::D(NoteMod::Normal).to_string(), "D");
    assert_eq!(NoteName::D(NoteMod::Sharp).to_string(), "D#");
    assert_eq!(NoteName::E(NoteMod::Flat).to_string(), "Eb");
    assert_eq!(NoteName::E(NoteMod::Normal).to_string(), "E");
    assert_eq!(NoteName::E(NoteMod::Sharp).to_string(), "E#");
    assert_eq!(NoteName::F(NoteMod::Flat).to_string(), "Fb");
    assert_eq!(NoteName::F(NoteMod::Normal).to_string(), "F");
    assert_eq!(NoteName::F(NoteMod::Sharp).to_string(), "F#");
    assert_eq!(NoteName::G(NoteMod::Flat).to_string(), "Gb");
    assert_eq!(NoteName::G(NoteMod::Normal).to_string(), "G");
    assert_eq!(NoteName::G(NoteMod::Sharp).to_string(), "G#");
    assert_eq!(NoteName::A(NoteMod::Flat).to_string(), "Ab");
    assert_eq!(NoteName::A(NoteMod::Normal).to_string(), "A");
    assert_eq!(NoteName::A(NoteMod::Sharp).to_string(), "A#");
    assert_eq!(NoteName::B(NoteMod::Flat).to_string(), "Bb");
    assert_eq!(NoteName::B(NoteMod::Normal).to_string(), "B");
    assert_eq!(NoteName::B(NoteMod::Sharp).to_string(), "B#");
}

#[test]
fn chord_enums_default_to_plain_major_root() {
    assert_eq!(NoteMod::default(), NoteMod::Normal);
    assert_eq!(NoteName::default(), NoteName::C(NoteMod::Normal));
    assert_eq!(ChordType::default(), ChordType::Major);
    assert_eq!(ChordFuntion::default(), ChordFuntion::Root(NoteMod::Normal));
}

#[test]
fn song_chord_sits_at_its_tick() {
    let song_chord = SongChord::new(960, Chord::default());
    let position = song_chord.get_position();
    assert_eq!(position.get_length(), Ok(0));
}

#[test]
fn song_chord_position_through_the_capability() {
    let settings = SongSettings::default();
    let in_first_bar = SongChord::new(480, Chord::default());
    let in_second_bar = SongChord::new(4000, Chord::default());
    assert_eq!(bar_of(&in_first_bar, &settings), 0);
    assert_eq!(bar_of(&in_second_bar, &settings), 1);
}

#[test]
fn new_song_constructs() {
    let _song = Song::new();
    let _other = Song::default();
}
