use vstd::prelude::*;

verus! {

/// The free-text description of a song: every field is optional and carries
/// no behaviour beyond storage.
#[derive(Clone)]
pub struct SongMeta {
    title: Option<String>,
    album: Option<String>,
    comment: Option<String>,
    songwriter: Option<String>,
    composer: Option<String>,
    arranger: Option<String>,
    copyright: Option<String>,
    artist: Option<String>,
    artist_page: Option<String>,
    genre: Option<String>,
    year: Option<i32>,
}

impl SongMeta {
    pub closed spec fn spec_title(&self) -> Option<String> {
        self.title
    }

    pub closed spec fn spec_album(&self) -> Option<String> {
        self.album
    }

    pub closed spec fn spec_comment(&self) -> Option<String> {
        self.comment
    }

    pub closed spec fn spec_songwriter(&self) -> Option<String> {
        self.songwriter
    }

    pub closed spec fn spec_composer(&self) -> Option<String> {
        self.composer
    }

    pub closed spec fn spec_arranger(&self) -> Option<String> {
        self.arranger
    }

    pub closed spec fn spec_copyright(&self) -> Option<String> {
        self.copyright
    }

    pub closed spec fn spec_artist(&self) -> Option<String> {
        self.artist
    }

    pub closed spec fn spec_artist_page(&self) -> Option<String> {
        self.artist_page
    }

    pub closed spec fn spec_genre(&self) -> Option<String> {
        self.genre
    }

    pub closed spec fn spec_year(&self) -> Option<i32> {
        self.year
    }

    /// Whether nothing has been filled in.
    pub open spec fn spec_is_empty(&self) -> bool {
        &&& self.spec_title() is None
        &&& self.spec_album() is None
        &&& self.spec_comment() is None
        &&& self.spec_songwriter() is None
        &&& self.spec_composer() is None
        &&& self.spec_arranger() is None
        &&& self.spec_copyright() is None
        &&& self.spec_artist() is None
        &&& self.spec_artist_page() is None
        &&& self.spec_genre() is None
        &&& self.spec_year() is None
    }

    // Getters
    pub fn get_title(&self) -> (r: Option<&String>)
        ensures
            r is Some <==> self.spec_title() is Some,
            r is Some ==> r->0 == self.spec_title()->0,
    {
        self.title.as_ref()
    }

    pub fn get_album(&self) -> (r: Option<&String>)
        ensures
            r is Some <==> self.spec_album() is Some,
            r is Some ==> r->0 == self.spec_album()->0,
    {
        self.album.as_ref()
    }

    pub fn get_comment(&self) -> (r: Option<&String>)
        ensures
            r is Some <==> self.spec_comment() is Some,
            r is Some ==> r->0 == self.spec_comment()->0,
    {
        self.comment.as_ref()
    }

    pub fn get_songwriter(&self) -> (r: Option<&String>)
        ensures
            r is Some <==> self.spec_songwriter() is Some,
            r is Some ==> r->0 == self.spec_songwriter()->0,
    {
        self.songwriter.as_ref()
    }

    pub fn get_composer(&self) -> (r: Option<&String>)
        ensures
            r is Some <==> self.spec_composer() is Some,
            r is Some ==> r->0 == self.spec_composer()->0,
    {
        self.composer.as_ref()
    }

    pub fn get_arranger(&self) -> (r: Option<&String>)
        ensures
            r is Some <==> self.spec_arranger() is Some,
            r is Some ==> r->0 == self.spec_arranger()->0,
    {
        self.arranger.as_ref()
    }

    pub fn get_copyright(&self) -> (r: Option<&String>)
        ensures
            r is Some <==> self.spec_copyright() is Some,
            r is Some ==> r->0 == self.spec_copyright()->0,
    {
        self.copyright.as_ref()
    }

    pub fn get_artist(&self) -> (r: Option<&String>)
        ensures
            r is Some <==> self.spec_artist() is Some,
            r is Some ==> r->0 == self.spec_artist()->0,
    {
        self.artist.as_ref()
    }

    pub fn get_artist_page(&self) -> (r: Option<&String>)
        ensures
            r is Some <==> self.spec_artist_page() is Some,
            r is Some ==> r->0 == self.spec_artist_page()->0,
    {
        self.artist_page.as_ref()
    }

    pub fn get_genre(&self) -> (r: Option<&String>)
        ensures
            r is Some <==> self.spec_genre() is Some,
            r is Some ==> r->0 == self.spec_genre()->0,
    {
        self.genre.as_ref()
    }

    pub fn get_year(&self) -> (r: Option<i32>)
        ensures
            r == self.spec_year(),
    {
        self.year
    }

    // Setters
    pub fn set_title(&mut self, title: Option<String>)
        ensures
            final(self).spec_title() == title,
            final(self).spec_album() == old(self).spec_album(),
            final(self).spec_comment() == old(self).spec_comment(),
            final(self).spec_songwriter() == old(self).spec_songwriter(),
            final(self).spec_composer() == old(self).spec_composer(),
            final(self).spec_arranger() == old(self).spec_arranger(),
            final(self).spec_copyright() == old(self).spec_copyright(),
            final(self).spec_artist() == old(self).spec_artist(),
            final(self).spec_artist_page() == old(self).spec_artist_page(),
            final(self).spec_genre() == old(self).spec_genre(),
            final(self).spec_year() == old(self).spec_year(),
    {
        self.title = title;
    }

    pub fn set_album(&mut self, album: Option<String>)
        ensures
            final(self).spec_album() == album,
            final(self).spec_title() == old(self).spec_title(),
            final(self).spec_comment() == old(self).spec_comment(),
            final(self).spec_songwriter() == old(self).spec_songwriter(),
            final(self).spec_composer() == old(self).spec_composer(),
            final(self).spec_arranger() == old(self).spec_arranger(),
            final(self).spec_copyright() == old(self).spec_copyright(),
            final(self).spec_artist() == old(self).spec_artist(),
            final(self).spec_artist_page() == old(self).spec_artist_page(),
            final(self).spec_genre() == old(self).spec_genre(),
            final(self).spec_year() == old(self).spec_year(),
    {
        self.album = album;
    }

    pub fn set_comment(&mut self, comment: Option<String>)
        ensures
            final(self).spec_comment() == comment,
            final(self).spec_title() == old(self).spec_title(),
            final(self).spec_album() == old(self).spec_album(),
            final(self).spec_songwriter() == old(self).spec_songwriter(),
            final(self).spec_composer() == old(self).spec_composer(),
            final(self).spec_arranger() == old(self).spec_arranger(),
            final(self).spec_copyright() == old(self).spec_copyright(),
            final(self).spec_artist() == old(self).spec_artist(),
            final(self).spec_artist_page() == old(self).spec_artist_page(),
            final(self).spec_genre() == old(self).spec_genre(),
            final(self).spec_year() == old(self).spec_year(),
    {
        self.comment = comment;
    }

    pub fn set_songwriter(&mut self, songwriter: Option<String>)
        ensures
            final(self).spec_songwriter() == songwriter,
            final(self).spec_title() == old(self).spec_title(),
            final(self).spec_album() == old(self).spec_album(),
            final(self).spec_comment() == old(self).spec_comment(),
            final(self).spec_composer() == old(self).spec_composer(),
            final(self).spec_arranger() == old(self).spec_arranger(),
            final(self).spec_copyright() == old(self).spec_copyright(),
            final(self).spec_artist() == old(self).spec_artist(),
            final(self).spec_artist_page() == old(self).spec_artist_page(),
            final(self).spec_genre() == old(self).spec_genre(),
            final(self).spec_year() == old(self).spec_year(),
    {
        self.songwriter = songwriter;
    }

    pub fn set_composer(&mut self, composer: Option<String>)
        ensures
            final(self).spec_composer() == composer,
            final(self).spec_title() == old(self).spec_title(),
            final(self).spec_album() == old(self).spec_album(),
            final(self).spec_comment() == old(self).spec_comment(),
            final(self).spec_songwriter() == old(self).spec_songwriter(),
            final(self).spec_arranger() == old(self).spec_arranger(),
            final(self).spec_copyright() == old(self).spec_copyright(),
            final(self).spec_artist() == old(self).spec_artist(),
            final(self).spec_artist_page() == old(self).spec_artist_page(),
            final(self).spec_genre() == old(self).spec_genre(),
            final(self).spec_year() == old(self).spec_year(),
    {
        self.composer = composer;
    }

    pub fn set_arranger(&mut self, arranger: Option<String>)
        ensures
            final(self).spec_arranger() == arranger,
            final(self).spec_title() == old(self).spec_title(),
            final(self).spec_album() == old(self).spec_album(),
            final(self).spec_comment() == old(self).spec_comment(),
            final(self).spec_songwriter() == old(self).spec_songwriter(),
            final(self).spec_composer() == old(self).spec_composer(),
            final(self).spec_copyright() == old(self).spec_copyright(),
            final(self).spec_artist() == old(self).spec_artist(),
            final(self).spec_artist_page() == old(self).spec_artist_page(),
            final(self).spec_genre() == old(self).spec_genre(),
            final(self).spec_year() == old(self).spec_year(),
    {
        self.arranger = arranger;
    }

    pub fn set_copyright(&mut self, copyright: Option<String>)
        ensures
            final(self).spec_copyright() == copyright,
            final(self).spec_title() == old(self).spec_title(),
            final(self).spec_album() == old(self).spec_album(),
            final(self).spec_comment() == old(self).spec_comment(),
            final(self).spec_songwriter() == old(self).spec_songwriter(),
            final(self).spec_composer() == old(self).spec_composer(),
            final(self).spec_arranger() == old(self).spec_arranger(),
            final(self).spec_artist() == old(self).spec_artist(),
            final(self).spec_artist_page() == old(self).spec_artist_page(),
            final(self).spec_genre() == old(self).spec_genre(),
            final(self).spec_year() == old(self).spec_year(),
    {
        self.copyright = copyright;
    }

    pub fn set_artist(&mut self, artist: Option<String>)
        ensures
            final(self).spec_artist() == artist,
            final(self).spec_title() == old(self).spec_title(),
            final(self).spec_album() == old(self).spec_album(),
            final(self).spec_comment() == old(self).spec_comment(),
            final(self).spec_songwriter() == old(self).spec_songwriter(),
            final(self).spec_composer() == old(self).spec_composer(),
            final(self).spec_arranger() == old(self).spec_arranger(),
            final(self).spec_copyright() == old(self).spec_copyright(),
            final(self).spec_artist_page() == old(self).spec_artist_page(),
            final(self).spec_genre() == old(self).spec_genre(),
            final(self).spec_year() == old(self).spec_year(),
    {
        self.artist = artist;
    }

    pub fn set_artist_page(&mut self, artist_page: Option<String>)
        ensures
            final(self).spec_artist_page() == artist_page,
            final(self).spec_title() == old(self).spec_title(),
            final(self).spec_album() == old(self).spec_album(),
            final(self).spec_comment() == old(self).spec_comment(),
            final(self).spec_songwriter() == old(self).spec_songwriter(),
            final(self).spec_composer() == old(self).spec_composer(),
            final(self).spec_arranger() == old(self).spec_arranger(),
            final(self).spec_copyright() == old(self).spec_copyright(),
            final(self).spec_artist() == old(self).spec_artist(),
            final(self).spec_genre() == old(self).spec_genre(),
            final(self).spec_year() == old(self).spec_year(),
    {
        self.artist_page = artist_page;
    }

    pub fn set_genre(&mut self, genre: Option<String>)
        ensures
            final(self).spec_genre() == genre,
            final(self).spec_title() == old(self).spec_title(),
            final(self).spec_album() == old(self).spec_album(),
            final(self).spec_comment() == old(self).spec_comment(),
            final(self).spec_songwriter() == old(self).spec_songwriter(),
            final(self).spec_composer() == old(self).spec_composer(),
            final(self).spec_arranger() == old(self).spec_arranger(),
            final(self).spec_copyright() == old(self).spec_copyright(),
            final(self).spec_artist() == old(self).spec_artist(),
            final(self).spec_artist_page() == old(self).spec_artist_page(),
            final(self).spec_year() == old(self).spec_year(),
    {
        self.genre = genre;
    }

    pub fn set_year(&mut self, year: Option<i32>)
        ensures
            final(self).spec_year() == year,
            final(self).spec_title() == old(self).spec_title(),
            final(self).spec_album() == old(self).spec_album(),
            final(self).spec_comment() == old(self).spec_comment(),
            final(self).spec_songwriter() == old(self).spec_songwriter(),
            final(self).spec_composer() == old(self).spec_composer(),
            final(self).spec_arranger() == old(self).spec_arranger(),
            final(self).spec_copyright() == old(self).spec_copyright(),
            final(self).spec_artist() == old(self).spec_artist(),
            final(self).spec_artist_page() == old(self).spec_artist_page(),
            final(self).spec_genre() == old(self).spec_genre(),
    {
        self.year = year;
    }

}

impl Default for SongMeta {
    /// A description with nothing filled in yet.
    fn default() -> (r: Self)
        ensures
            r.spec_title() is None,
            r.spec_album() is None,
            r.spec_comment() is None,
            r.spec_songwriter() is None,
            r.spec_composer() is None,
            r.spec_arranger() is None,
            r.spec_copyright() is None,
            r.spec_artist() is None,
            r.spec_artist_page() is None,
            r.spec_genre() is None,
            r.spec_year() is None,
    {
        SongMeta {
            title: None,
            album: None,
            comment: None,
            songwriter: None,
            composer: None,
            arranger: None,
            copyright: None,
            artist: None,
            artist_page: None,
            genre: None,
            year: None,
        }
    }
}

} // verus!
