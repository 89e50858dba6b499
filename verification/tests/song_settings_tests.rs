use song_core::prelude::SongError;
use song_core::prelude::SongSettings;

#[test]
fn test_ppq_getter_setter() {
    let mut song_settings = SongSettings::default();
    song_settings.set_pulses_per_quarter(960 * 2);
    assert_eq!(song_settings.get_pulses_per_quarter(), 960 * 2);
}

#[test]
fn test_sample_rate_getter_and_setter() {
    let mut song_settings = SongSettings::default();
    song_settings.set_sample_rate(44100);
    assert_eq!(song_settings.get_sample_rate(), 44100);
}

#[test]
fn test_frame_type_getter_and_setter() {
    let mut song_settings = SongSettings::default();
    song_settings.set_frame_type(1);
    assert_eq!(song_settings.get_frame_type(), 1);
}

#[test]
fn test_time_signature_numerator_getter_and_setter() {
    let mut song_settings = SongSettings::default();
    song_settings.set_time_signature_numerator(4);
    assert_eq!(song_settings.get_time_signature_numerator(), 4);
}

#[test]
fn test_time_signature_denominator_getter_and_setter() {
    let mut song_settings = SongSettings::default();
    song_settings.set_time_signature_denominator(4);
    assert_eq!(song_settings.get_time_signature_denominator(), 4);
}

#[test]
fn test_key_signature_getter_and_setter() {
    let mut song_settings = SongSettings::default();
    let key_signature = String::from("G Major");
    song_settings.set_key_signature(key_signature.clone());
    assert_eq!(song_settings.get_key_signature(), &key_signature);
}

#[test]
fn test_track_count_getter_and_setter() {
    let mut song_settings = SongSettings::default();
    song_settings.set_track_count(8);
    assert_eq!(song_settings.get_track_count(), 8);
}

#[test]
fn test_bit_depth_getter_and_setter() {
    let mut song_settings = SongSettings::default();
    song_settings.set_bit_depth(16);
    assert_eq!(song_settings.get_bit_depth(), 16);
}

#[test]
fn test_time_format_getter_and_setter() {
    let mut song_settings = SongSettings::default();
    song_settings.set_time_format(1);
    assert_eq!(song_settings.get_time_format(), 1);
}

#[test]
fn test_default() {
    let subject = SongSettings::default();
    assert_eq!(*subject.get_key_signature(), String::from("C Major"));
    assert_eq!(subject.get_bit_depth(), 64);
    assert_eq!(subject.get_sample_rate(), 44100);
    assert_eq!(subject.get_time_signature_denominator(), 4);
    assert_eq!(subject.get_time_signature_numerator(), 4);
    assert_eq!(subject.get_pulses_per_quarter(), 960);
}

fn settings_with_denominator(denominator: u64) -> SongSettings {
    let mut song_settings = SongSettings::default();
    song_settings.set_time_signature_denominator(denominator);
    song_settings
}

#[test]
fn denominator_one_quarters_the_resolution() {
    assert_eq!(settings_with_denominator(1).get_pulses_per_beat(), Ok(240));
}

#[test]
fn denominator_two_halves_the_quarter_resolution() {
    assert_eq!(settings_with_denominator(2).get_pulses_per_beat(), Ok(480));
}

#[test]
fn denominator_four_keeps_the_quarter_resolution() {
    assert_eq!(settings_with_denominator(4).get_pulses_per_beat(), Ok(960));
}

#[test]
fn denominator_eight_rescales_multiplicatively() {
    assert_eq!(settings_with_denominator(8).get_pulses_per_beat(), Ok(1920));
}

#[test]
fn denominator_sixteen_rescales_multiplicatively() {
    assert_eq!(settings_with_denominator(16).get_pulses_per_beat(), Ok(3840));
}

#[test]
fn odd_denominator_is_rejected() {
    assert_eq!(
        settings_with_denominator(3).get_pulses_per_beat(),
        Err(SongError::InvalidTimeSignature)
    );
}

#[test]
fn zero_denominator_is_rejected() {
    assert_eq!(
        settings_with_denominator(0).get_pulses_per_beat(),
        Err(SongError::InvalidTimeSignature)
    );
}
