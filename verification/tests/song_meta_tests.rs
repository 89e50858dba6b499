use song_core::prelude::SongMeta;

#[test]
fn test_set_and_get_title() {
    let mut song_meta = SongMeta::default();
    let title = Some(String::from("Title"));
    song_meta.set_title(title.clone());
    assert_eq!(song_meta.get_title(), title.as_ref());
}

#[test]
fn test_set_and_get_album() {
    let mut song_meta = SongMeta::default();
    let album = Some(String::from("Album"));
    song_meta.set_album(album.clone());
    assert_eq!(song_meta.get_album(), album.as_ref());
}

#[test]
fn test_set_and_get_artist() {
    let mut song_meta = SongMeta::default();
    let artist = Some(String::from("Artist"));
    song_meta.set_artist(artist.clone());
    assert_eq!(song_meta.get_artist(), artist.as_ref());
}

#[test]
fn test_set_and_get_artist_page() {
    let mut song_meta = SongMeta::default();
    let artist = Some(String::from("Artist Page"));
    song_meta.set_artist_page(artist.clone());
    assert_eq!(song_meta.get_artist_page(), artist.as_ref());
}

#[test]
fn test_set_and_get_genre() {
    let mut song_meta = SongMeta::default();
    let genre = Some(String::from("Genre"));
    song_meta.set_genre(genre.clone());
    assert_eq!(song_meta.get_genre(), genre.as_ref());
}

#[test]
fn test_set_and_get_comment() {
    let mut song_meta = SongMeta::default();
    let comment = Some(String::from("This is a comment"));
    song_meta.set_comment(comment.clone());
    assert_eq!(song_meta.get_comment(), comment.as_ref());
}

#[test]
fn test_set_and_get_year() {
    let mut song_meta = SongMeta::default();
    let year = Some(2024);
    song_meta.set_year(year);
    assert_eq!(song_meta.get_year(), year);
}

#[test]
fn test_set_and_get_composer() {
    let mut song_meta = SongMeta::default();
    let comment = Some(String::from("Composer"));
    song_meta.set_composer(comment.clone());
    assert_eq!(song_meta.get_composer(), comment.as_ref());
}

#[test]
fn test_set_and_get_arranger() {
    let mut song_meta = SongMeta::default();
    let comment = Some(String::from("Arranger"));
    song_meta.set_arranger(comment.clone());
    assert_eq!(song_meta.get_arranger(), comment.as_ref());
}

#[test]
fn test_set_and_get_songwriter() {
    let mut song_meta = SongMeta::default();
    let comment = Some(String::from("Songwriter"));
    song_meta.set_songwriter(comment.clone());
    assert_eq!(song_meta.get_songwriter(), comment.as_ref());
}

#[test]
fn test_set_and_get_copyright() {
    let mut song_meta = SongMeta::default();
    let comment = Some(String::from("Copyright"));
    song_meta.set_copyright(comment.clone());
    assert_eq!(song_meta.get_copyright(), comment.as_ref());
}

#[test]
fn fresh_meta_has_nothing_set() {
    let song_meta = SongMeta::default();
    assert_eq!(song_meta.get_title(), None);
    assert_eq!(song_meta.get_album(), None);
    assert_eq!(song_meta.get_comment(), None);
    assert_eq!(song_meta.get_songwriter(), None);
    assert_eq!(song_meta.get_composer(), None);
    assert_eq!(song_meta.get_arranger(), None);
    assert_eq!(song_meta.get_copyright(), None);
    assert_eq!(song_meta.get_artist(), None);
    assert_eq!(song_meta.get_artist_page(), None);
    assert_eq!(song_meta.get_genre(), None);
    assert_eq!(song_meta.get_year(), None);
}

#[test]
fn setting_one_field_leaves_the_others_alone() {
    let mut song_meta = SongMeta::default();
    song_meta.set_title(Some(String::from("Title")));
    song_meta.set_year(Some(1999));
    song_meta.set_title(None);
    assert_eq!(song_meta.get_title(), None);
    assert_eq!(song_meta.get_year(), Some(1999));
}
