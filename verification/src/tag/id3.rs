//! The ID3v2 encoder: canonical fields become text frames under four-letter
//! frame ids, committed in one of the two common minor revisions.

use vstd::prelude::*;

use crate::error::SpotifyError;
use super::{
    entry_views, join_spec, join_values, lookup_raw, parse_release_date, CommitFormat, Field,
    ReleaseDate, Tag,
};

verus! {

/// The two ID3v2 minor revisions a tag can be committed in.
#[derive(Debug, Clone, Copy, PartialEq, Eq, Structural)]
pub enum Id3Version {
    /// ID3v2.3, the default.
    V23,
    /// ID3v2.4.
    V24,
}

/// An ID3v2 tag bound to one file: entries accumulate in memory until the
/// commit writes them as text frames.
#[derive(Debug, Clone)]
pub struct ID3Tag {
    path: String,
    frames: Vec<(String, String)>,
    separator: String,
    version: Id3Version,
    release: Option<ReleaseDate>,
    cover: Option<(String, Vec<u8>)>,
    ufid: Option<String>,
    committed: bool,
}

impl ID3Tag {
    /// The file the tag is bound to.
    pub closed spec fn path_spec(&self) -> Seq<char> {
        self.path@
    }

    /// The revision the tag will be committed in.
    pub closed spec fn version_spec(&self) -> Id3Version {
        self.version
    }

    /// Bind a fresh tag to the file at `path`. Nothing is read or written
    /// here; a file without a pre-existing tag structure is not an error,
    /// and the accumulated entries are merged into whatever the file holds
    /// when they are committed.
    pub fn open(path: &str) -> (r: Result<ID3Tag, SpotifyError>)
        ensures
            r matches Ok(t) && t.path_spec() == path@ && t.version_spec() == Id3Version::V23
                && t.entries() == Seq::<(Seq<char>, Seq<char>)>::empty() && t.separator()
                == Seq::<char>::empty() && !t.saved() && t.release() is None && t.cover() is None
                && t.ufid() is None,
    {
        let t = ID3Tag {
            path: String::from_str(path),
            frames: Vec::new(),
            separator: String::new(),
            version: Id3Version::V23,
            release: None,
            cover: None,
            ufid: None,
            committed: false,
        };
        proof {
            assert(entry_views(t.frames@) =~~= Seq::<(Seq<char>, Seq<char>)>::empty());
        }
        Ok(t)
    }

    /// Choose whether the commit writes ID3v2.4 instead of the default
    /// ID3v2.3.
    pub fn use_id3_v24(&mut self, v: bool)
        requires
            !old(self).saved(),
        ensures
            final(self).version_spec() == (if v {
                Id3Version::V24
            } else {
                Id3Version::V23
            }),
            final(self).path_spec() == old(self).path_spec(),
            final(self).entries() == old(self).entries(),
            final(self).separator() == old(self).separator(),
            final(self).saved() == old(self).saved(),
            final(self).release() == old(self).release(),
            final(self).cover() == old(self).cover(),
            final(self).ufid() == old(self).ufid(),
    {
        match v {
            true => self.version = Id3Version::V24,
            false => self.version = Id3Version::V23,
        }
    }

    /// The file path, for the commit.
    pub fn path(&self) -> (r: &String)
        ensures
            r@ == self.path_spec(),
    {
        &self.path
    }

    /// The accumulated entries in write order, for the commit.
    pub fn frames(&self) -> (r: &Vec<(String, String)>)
        ensures
            entry_views(r@) == self.entries(),
    {
        &self.frames
    }

    /// The revision to commit in.
    pub fn version(&self) -> (r: Id3Version)
        ensures
            r == self.version_spec(),
    {
        self.version
    }

    /// The stored release date, if any.
    pub fn release_date(&self) -> (r: Option<ReleaseDate>)
        ensures
            r == self.release(),
    {
        self.release
    }

    /// The stored cover image, if any.
    pub fn cover_image(&self) -> (r: &Option<(String, Vec<u8>)>)
        ensures
            r is Some <==> self.cover() is Some,
            r matches Some(c) ==> self.cover() == Some((c.0@, c.1@)),
    {
        &self.cover
    }

    /// The stored source identifier, if any.
    pub fn unique_file_identifier(&self) -> (r: &Option<String>)
        ensures
            r is Some <==> self.ufid() is Some,
            r matches Some(u) ==> self.ufid() == Some(u@),
    {
        &self.ufid
    }

    /// Whether the tag was committed already.
    pub fn is_saved(&self) -> (r: bool)
        ensures
            r == self.saved(),
    {
        self.committed
    }
}

/// The full field-to-frame mapping this encoder writes: every canonical
/// field lands under its four-letter ID3v2 frame id, so storing a field and
/// reading that frame id back yields the joined value.
pub proof fn lemma_id3_key_table(t: &ID3Tag)
    ensures
        t.native_key(Field::Title) == "TIT2"@,
        t.native_key(Field::Artist) == "TPE1"@,
        t.native_key(Field::Album) == "TALB"@,
        t.native_key(Field::TrackNumber) == "TRCK"@,
        t.native_key(Field::DiscNumber) == "TPOS"@,
        t.native_key(Field::Genre) == "TCON"@,
        t.native_key(Field::Label) == "TPUB"@,
        t.native_key(Field::AlbumArtist) == "TPE2"@,
{
}

impl Tag for ID3Tag {
    closed spec fn entries(&self) -> Seq<(Seq<char>, Seq<char>)> {
        entry_views(self.frames@)
    }

    closed spec fn separator(&self) -> Seq<char> {
        self.separator@
    }

    closed spec fn saved(&self) -> bool {
        self.committed
    }

    closed spec fn release(&self) -> Option<ReleaseDate> {
        self.release
    }

    closed spec fn cover(&self) -> Option<(Seq<char>, Seq<u8>)> {
        match self.cover {
            Option::Some(c) => Some((c.0@, c.1@)),
            Option::None => None,
        }
    }

    closed spec fn ufid(&self) -> Option<Seq<char>> {
        match self.ufid {
            Option::Some(u) => Some(u@),
            Option::None => None,
        }
    }

    open spec fn native_key(&self, f: Field) -> Seq<char> {
        match f {
            Field::Title => "TIT2"@,
            Field::Artist => "TPE1"@,
            Field::Album => "TALB"@,
            Field::TrackNumber => "TRCK"@,
            Field::DiscNumber => "TPOS"@,
            Field::Genre => "TCON"@,
            Field::Label => "TPUB"@,
            Field::AlbumArtist => "TPE2"@,
        }
    }

    open spec fn bound_path(&self) -> Seq<char> {
        self.path_spec()
    }

    open spec fn commit_format(&self) -> CommitFormat {
        match self.version_spec() {
            Id3Version::V23 => CommitFormat::Id3v23,
            Id3Version::V24 => CommitFormat::Id3v24,
        }
    }

    fn set_separator(&mut self, separator: &str) {
        self.separator = String::from_str(separator);
    }

    fn set_raw(&mut self, tag: &str, value: Vec<String>) {
        let joined = join_values(&value, self.separator.as_str());
        let ghost pre = self.frames@;
        self.frames.push((String::from_str(tag), joined));
        proof {
            assert(entry_views(self.frames@) =~~= entry_views(pre).push(
                (tag@, join_spec(value@.map_values(|v: String| v@), self.separator@)),
            ));
        }
    }

    fn set_field(&mut self, field: Field, value: Vec<String>) {
        let tag = match field {
            Field::Title => "TIT2",
            Field::Artist => "TPE1",
            Field::Album => "TALB",
            Field::TrackNumber => "TRCK",
            Field::DiscNumber => "TPOS",
            Field::Genre => "TCON",
            Field::Label => "TPUB",
            Field::AlbumArtist => "TPE2",
        };
        self.set_raw(tag, value);
    }

    fn set_release_date(&mut self, date: String) -> (r: Result<(), SpotifyError>) {
        match parse_release_date(date.as_str()) {
            Some(d) => {
                self.release = Some(d);
                Ok(())
            },
            None => Err(SpotifyError::TagEncoding),
        }
    }

    fn add_cover(&mut self, mime: &str, data: Vec<u8>) {
        self.cover = Some((String::from_str(mime), data));
    }

    fn add_unique_file_identifier(&mut self, track_id: &str) {
        self.ufid = Some(String::from_str(track_id));
    }

    fn save(&mut self) -> (r: Result<(), SpotifyError>) {
        self.committed = true;
        Ok(())
    }

    fn get_raw(&self, tag: &str) -> (r: Option<String>) {
        lookup_raw(&self.frames, tag)
    }
}

} // verus!
