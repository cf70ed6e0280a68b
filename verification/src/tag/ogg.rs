//! The Vorbis-comment encoder: canonical fields become comments under
//! upper-case conventional keys inside an Ogg Vorbis container.

use vstd::prelude::*;

use crate::error::SpotifyError;
use super::{
    entry_views, join_spec, join_values, lookup_raw, parse_release_date, CommitFormat, Field,
    ReleaseDate, Tag,
};

verus! {

/// A Vorbis comment block bound to one file: entries accumulate in memory
/// until the commit writes them as comments.
#[derive(Debug, Clone)]
pub struct OggTag {
    path: String,
    comments: Vec<(String, String)>,
    separator: String,
    release: Option<ReleaseDate>,
    cover: Option<(String, Vec<u8>)>,
    ufid: Option<String>,
    committed: bool,
}

impl OggTag {
    /// The file the tag is bound to.
    pub closed spec fn path_spec(&self) -> Seq<char> {
        self.path@
    }

    /// Bind a fresh comment block to the file at `path`. Nothing is read or
    /// written here; a file without comments is not an error, and the
    /// accumulated entries are merged into whatever the file holds when
    /// they are committed.
    pub fn open(path: &str) -> (r: Result<OggTag, SpotifyError>)
        ensures
            r matches Ok(t) && t.path_spec() == path@ && t.entries() == Seq::<
                (Seq<char>, Seq<char>),
            >::empty() && t.separator() == Seq::<char>::empty() && !t.saved() && t.release()
                is None && t.cover() is None && t.ufid() is None,
    {
        let t = OggTag {
            path: String::from_str(path),
            comments: Vec::new(),
            separator: String::new(),
            release: None,
            cover: None,
            ufid: None,
            committed: false,
        };
        proof {
            assert(entry_views(t.comments@) =~~= Seq::<(Seq<char>, Seq<char>)>::empty());
        }
        Ok(t)
    }

    /// The file path, for the commit.
    pub fn path(&self) -> (r: &String)
        ensures
            r@ == self.path_spec(),
    {
        &self.path
    }

    /// The accumulated entries in write order, for the commit.
    pub fn comments(&self) -> (r: &Vec<(String, String)>)
        ensures
            entry_views(r@) == self.entries(),
    {
        &self.comments
    }

    /// The stored release date, if any.
    pub fn release_date(&self) -> (r: Option<ReleaseDate>)
        ensures
            r == self.release(),
    {
        self.release
    }

    /// The stored cover image, if any.
    pub fn cover_image(&self) -> (r: &Option<(String, Vec<u8>)>)
        ensures
            r is Some <==> self.cover() is Some,
            r matches Some(c) ==> self.cover() == Some((c.0@, c.1@)),
    {
        &self.cover
    }

    /// The stored source identifier, if any.
    pub fn unique_file_identifier(&self) -> (r: &Option<String>)
        ensures
            r is Some <==> self.ufid() is Some,
            r matches Some(u) ==> self.ufid() == Some(u@),
    {
        &self.ufid
    }

    /// Whether the tag was committed already.
    pub fn is_saved(&self) -> (r: bool)
        ensures
            r == self.saved(),
    {
        self.committed
    }
}

/// The full field-to-comment-key mapping this encoder writes: every
/// canonical field lands under its conventional upper-case Vorbis comment
/// key, so storing a field and reading that key back yields the joined
/// value.
pub proof fn lemma_vorbis_key_table(t: &OggTag)
    ensures
        t.native_key(Field::Title) == "TITLE"@,
        t.native_key(Field::Artist) == "ARTIST"@,
        t.native_key(Field::Album) == "ALBUM"@,
        t.native_key(Field::TrackNumber) == "TRACKNUMBER"@,
        t.native_key(Field::DiscNumber) == "DISCNUMBER"@,
        t.native_key(Field::Genre) == "GENRE"@,
        t.native_key(Field::Label) == "LABEL"@,
        t.native_key(Field::AlbumArtist) == "ALBUMARTIST"@,
{
}

impl Tag for OggTag {
    closed spec fn entries(&self) -> Seq<(Seq<char>, Seq<char>)> {
        entry_views(self.comments@)
    }

    closed spec fn separator(&self) -> Seq<char> {
        self.separator@
    }

    closed spec fn saved(&self) -> bool {
        self.committed
    }

    closed spec fn release(&self) -> Option<ReleaseDate> {
        self.release
    }

    closed spec fn cover(&self) -> Option<(Seq<char>, Seq<u8>)> {
        match self.cover {
            Option::Some(c) => Some((c.0@, c.1@)),
            Option::None => None,
        }
    }

    closed spec fn ufid(&self) -> Option<Seq<char>> {
        match self.ufid {
            Option::Some(u) => Some(u@),
            Option::None => None,
        }
    }

    open spec fn native_key(&self, f: Field) -> Seq<char> {
        match f {
            Field::Title => "TITLE"@,
            Field::Artist => "ARTIST"@,
            Field::Album => "ALBUM"@,
            Field::TrackNumber => "TRACKNUMBER"@,
            Field::DiscNumber => "DISCNUMBER"@,
            Field::Genre => "GENRE"@,
            Field::Label => "LABEL"@,
            Field::AlbumArtist => "ALBUMARTIST"@,
        }
    }

    open spec fn bound_path(&self) -> Seq<char> {
        self.path_spec()
    }

    open spec fn commit_format(&self) -> CommitFormat {
        CommitFormat::VorbisComment
    }

    fn set_separator(&mut self, separator: &str) {
        self.separator = String::from_str(separator);
    }

    fn set_raw(&mut self, tag: &str, value: Vec<String>) {
        let joined = join_values(&value, self.separator.as_str());
        let ghost pre = self.comments@;
        self.comments.push((String::from_str(tag), joined));
        proof {
            assert(entry_views(self.comments@) =~~= entry_views(pre).push(
                (tag@, join_spec(value@.map_values(|v: String| v@), self.separator@)),
            ));
        }
    }

    fn set_field(&mut self, field: Field, value: Vec<String>) {
        let tag = match field {
            Field::Title => "TITLE",
            Field::Artist => "ARTIST",
            Field::Album => "ALBUM",
            Field::TrackNumber => "TRACKNUMBER",
            Field::DiscNumber => "DISCNUMBER",
            Field::Genre => "GENRE",
            Field::Label => "LABEL",
            Field::AlbumArtist => "ALBUMARTIST",
        };
        self.set_raw(tag, value);
    }

    fn set_release_date(&mut self, date: String) -> (r: Result<(), SpotifyError>) {
        match parse_release_date(date.as_str()) {
            Some(d) => {
                self.release = Some(d);
                Ok(())
            },
            None => Err(SpotifyError::TagEncoding),
        }
    }

    fn add_cover(&mut self, mime: &str, data: Vec<u8>) {
        self.cover = Some((String::from_str(mime), data));
    }

    fn add_unique_file_identifier(&mut self, track_id: &str) {
        self.ufid = Some(String::from_str(track_id));
    }

    fn save(&mut self) -> (r: Result<(), SpotifyError>) {
        self.committed = true;
        Ok(())
    }

    fn get_raw(&self, tag: &str) -> (r: Option<String>) {
        lookup_raw(&self.comments, tag)
    }
}

} // verus!
