//! The format-polymorphic tag writer: one canonical field set, two native
//! encodings. An open tag accumulates entries in memory — native key to
//! joined value, later writes winning — until the commit.

use vstd::prelude::*;

use crate::error::SpotifyError;
use std::str::FromStr;

pub mod id3;
pub mod ogg;

verus! {

/// The canonical tag fields the rest of the system understands.
#[derive(Debug, Clone, Copy)]
pub enum Field {
    /// The track title.
    Title,
    /// The performing artists.
    Artist,
    /// The album name.
    Album,
    /// The position of the track on its disc.
    TrackNumber,
    /// The disc number.
    DiscNumber,
    /// The album-level artist.
    AlbumArtist,
    /// The genre.
    Genre,
    /// The releasing label.
    Label,
}

/// The audio container formats a download can arrive in. Exactly two of
/// them have a tag encoder.
#[derive(Debug, Clone, Copy, PartialEq, Eq, Structural)]
pub enum AudioFormat {
    /// An Ogg Vorbis container: tagged with a Vorbis comment block.
    Ogg,
    /// An MPEG audio container: tagged with an ID3v2 tag.
    Mp3,
    /// An AAC container: no tag encoder exists for it.
    Aac,
}

/// A release date as the ID3v2.4 timestamp grammar reads it: a year, then
/// ever finer optional components.
#[derive(Debug, Clone, Copy, PartialEq, Eq, Structural)]
pub struct ReleaseDate {
    /// The year.
    pub year: i32,
    /// The month, if given.
    pub month: Option<u8>,
    /// The day, if given.
    pub day: Option<u8>,
    /// The hour, if given.
    pub hour: Option<u8>,
    /// The minute, if given.
    pub minute: Option<u8>,
    /// The second, if given.
    pub second: Option<u8>,
}

impl ReleaseDate {
    /// The components as plain mathematical values.
    pub open spec fn parts(self) -> (
        int,
        Option<int>,
        Option<int>,
        Option<int>,
        Option<int>,
        Option<int>,
    ) {
        (
            self.year as int,
            match self.month {
                Option::Some(m) => Some(m as int),
                Option::None => None,
            },
            match self.day {
                Option::Some(d) => Some(d as int),
                Option::None => None,
            },
            match self.hour {
                Option::Some(h) => Some(h as int),
                Option::None => None,
            },
            match self.minute {
                Option::Some(m) => Some(m as int),
                Option::None => None,
            },
            match self.second {
                Option::Some(s) => Some(s as int),
                Option::None => None,
            },
        )
    }
}

/// What the ID3v2.4 timestamp grammar makes of a string: `None` when the
/// string holds no timestamp, otherwise the components read from it. The
/// outcome depends on the characters alone.
pub uninterp spec fn release_timestamp_of(s: Seq<char>) -> Option<
    (int, Option<int>, Option<int>, Option<int>, Option<int>, Option<int>),
>;

/// Relies on `id3::frame::Timestamp::from_str`: whether a string parses as
/// a release timestamp, and as which components, is a function of its
/// characters alone.
#[verifier::external_body]
fn parse_release_date(date: &str) -> (r: Option<ReleaseDate>)
    ensures
        r is Some <==> release_timestamp_of(date@) is Some,
        r matches Some(d) ==> release_timestamp_of(date@) == Some(d.parts()),
{
    match ::id3::frame::Timestamp::from_str(date) {
        Ok(t) => Some(
            ReleaseDate {
                year: t.year,
                month: t.month,
                day: t.day,
                hour: t.hour,
                minute: t.minute,
                second: t.second,
            },
        ),
        Err(_) => None,
    }
}

/// The values joined with the separator between each pair: the empty
/// sequence for no values, and no trailing separator.
pub open spec fn join_spec(vs: Seq<Seq<char>>, sep: Seq<char>) -> Seq<char>
    decreases vs.len(),
{
    if vs.len() == 0 {
        Seq::empty()
    } else if vs.len() == 1 {
        vs[0]
    } else {
        vs[0].add(sep).add(join_spec(vs.drop_first(), sep))
    }
}

/// Appending one more value extends the joined string by a separator and
/// that value — except onto an empty list, which it becomes entirely.
pub proof fn lemma_join_push(vs: Seq<Seq<char>>, sep: Seq<char>, v: Seq<char>)
    ensures
        vs.len() == 0 ==> join_spec(vs.push(v), sep) == v,
        vs.len() > 0 ==> join_spec(vs.push(v), sep) == join_spec(vs, sep).add(sep).add(v),
    decreases vs.len(),
{
    if vs.len() == 0 {
        assert(join_spec(vs.push(v), sep) == vs.push(v)[0]);
    } else if vs.len() == 1 {
        assert(vs.push(v).drop_first() =~~= seq![v]);
        assert(join_spec(vs, sep) == vs[0]);
        assert(join_spec(seq![v], sep) == v);
        assert(join_spec(vs.push(v), sep) =~= join_spec(vs, sep).add(sep).add(v));
    } else {
        assert(vs.push(v).drop_first() =~~= vs.drop_first().push(v));
        lemma_join_push(vs.drop_first(), sep, v);
        assert(join_spec(vs.push(v), sep) =~= join_spec(vs, sep).add(sep).add(v));
    }
}

/// Join the values with the separator, in order, with no trailing separator.
pub fn join_values(values: &Vec<String>, sep: &str) -> (r: String)
    ensures
        r@ == join_spec(values@.map_values(|v: String| v@), sep@),
{
    let ghost mapped = values@.map_values(|v: String| v@);
    let mut out = String::new();
    let mut i: usize = 0;
    proof {
        assert(mapped.take(0) =~~= Seq::<Seq<char>>::empty());
    }
    while i < values.len()
        invariant
            i <= values.len(),
            mapped == values@.map_values(|v: String| v@),
            out@ == join_spec(mapped.take(i as int), sep@),
        decreases values.len() - i,
    {
        proof {
            assert(mapped.take(i + 1) =~~= mapped.take(i as int).push(mapped[i as int]));
            lemma_join_push(mapped.take(i as int), sep@, mapped[i as int]);
        }
        if i > 0 {
            out.append(sep);
        }
        out.append(values[i].as_str());
        i = i + 1;
    }
    proof {
        assert(mapped.take(values@.len() as int) =~~= mapped);
    }
    out
}

/// The stored entries as views: native key and joined value, in write order.
pub open spec fn entry_views(entries: Seq<(String, String)>) -> Seq<(Seq<char>, Seq<char>)> {
    entries.map_values(|e: (String, String)| (e.0@, e.1@))
}

/// The value stored under a key, the latest write winning; `None` when the
/// key was never written.
pub open spec fn lookup_entry(entries: Seq<(Seq<char>, Seq<char>)>, key: Seq<char>) -> Option<
    Seq<char>,
>
    decreases entries.len(),
{
    if entries.len() == 0 {
        None
    } else if entries.last().0 == key {
        Some(entries.last().1)
    } else {
        lookup_entry(entries.drop_last(), key)
    }
}

/// Appending an entry overwrites its key and leaves every other key as it
/// was.
pub proof fn lemma_lookup_push(
    entries: Seq<(Seq<char>, Seq<char>)>,
    e: (Seq<char>, Seq<char>),
    key: Seq<char>,
)
    ensures
        key == e.0 ==> lookup_entry(entries.push(e), key) == Some(e.1),
        key != e.0 ==> lookup_entry(entries.push(e), key) == lookup_entry(entries, key),
{
    assert(entries.push(e).last() == e);
    assert(entries.push(e).drop_last() =~~= entries);
}

/// Find the latest value stored under a key.
pub fn lookup_raw(entries: &Vec<(String, String)>, key: &str) -> (r: Option<String>)
    ensures
        ({
            let l = lookup_entry(entry_views(entries@), key@);
            &&& (l is None ==> r is None)
            &&& (l matches Some(v) ==> (r matches Some(s) && s@ == v))
        }),
{
    let ghost views = entry_views(entries@);
    let mut i: usize = entries.len();
    proof {
        assert(views.take(entries@.len() as int) =~~= views);
    }
    while i > 0
        invariant
            i <= entries.len(),
            views == entry_views(entries@),
            lookup_entry(views, key@) == lookup_entry(views.take(i as int), key@),
        decreases i,
    {
        i = i - 1;
        proof {
            assert(views.take(i + 1).last() == views[i as int]);
            assert(views.take(i + 1).drop_last() =~~= views.take(i as int));
            assert(views[i as int] == (entries@[i as int].0@, entries@[i as int].1@));
        }
        if crate::uri::str_eq(entries[i].0.as_str(), key) {
            return Some(entries[i].1.clone());
        }
    }
    proof {
        assert(views.take(0) =~~= Seq::<(Seq<char>, Seq<char>)>::empty());
    }
    None
}

/// The on-disk encoding a commit produces: one of the two common ID3v2
/// minor revisions, or a Vorbis comment block.
#[derive(Debug, Clone, Copy, PartialEq, Eq, Structural)]
pub enum CommitFormat {
    /// An ID3v2.3 tag.
    Id3v23,
    /// An ID3v2.4 tag.
    Id3v24,
    /// A Vorbis comment block.
    VorbisComment,
}

/// The capability interface both encoders implement: accumulate canonical
/// fields, raw entries, a release date, cover art and a source identifier,
/// then commit once. An instance moves from open, through mutated, to
/// saved; once saved it accepts no further mutation, and a repeated commit
/// with nothing new to write is a no-op that succeeds.
pub trait Tag: Sized {
    /// The accumulated entries, native key to joined value, in write order.
    spec fn entries(&self) -> Seq<(Seq<char>, Seq<char>)>;

    /// The separator joining multi-valued inputs; empty by default.
    spec fn separator(&self) -> Seq<char>;

    /// Whether the accumulated mutations were committed.
    spec fn saved(&self) -> bool;

    /// The stored release date.
    spec fn release(&self) -> Option<ReleaseDate>;

    /// The stored front-cover image: MIME type and bytes.
    spec fn cover(&self) -> Option<(Seq<char>, Seq<u8>)>;

    /// The stored source identifier.
    spec fn ufid(&self) -> Option<Seq<char>>;

    /// The encoder's native key for a canonical field.
    spec fn native_key(&self, f: Field) -> Seq<char>;

    /// The file the writer is bound to; construction fixes it for the life
    /// of the instance, and no operation here touches it.
    spec fn bound_path(&self) -> Seq<char>;

    /// The encoding the commit will write. Construction fixes it up to the
    /// ID3 revision choice, which only `ID3Tag::use_id3_v24` revises; no
    /// operation here touches it.
    spec fn commit_format(&self) -> CommitFormat;

    /// Set the separator used to join multi-valued inputs from now on.
    fn set_separator(&mut self, separator: &str)
        requires
            !old(self).saved(),
        ensures
            final(self).separator() == separator@,
            final(self).entries() == old(self).entries(),
            final(self).saved() == old(self).saved(),
            final(self).release() == old(self).release(),
            final(self).cover() == old(self).cover(),
            final(self).ufid() == old(self).ufid(),
            forall|f: Field| final(self).native_key(f) == old(self).native_key(f),
            final(self).bound_path() == old(self).bound_path(),
            final(self).commit_format() == old(self).commit_format(),
    ;

    /// Store the joined values under a caller-supplied native key, verbatim.
    fn set_raw(&mut self, tag: &str, value: Vec<String>)
        requires
            !old(self).saved(),
        ensures
            final(self).entries() == old(self).entries().push(
                (tag@, join_spec(value@.map_values(|v: String| v@), old(self).separator())),
            ),
            final(self).separator() == old(self).separator(),
            final(self).saved() == old(self).saved(),
            final(self).release() == old(self).release(),
            final(self).cover() == old(self).cover(),
            final(self).ufid() == old(self).ufid(),
            forall|f: Field| final(self).native_key(f) == old(self).native_key(f),
            final(self).bound_path() == old(self).bound_path(),
            final(self).commit_format() == old(self).commit_format(),
    ;

    /// Store the joined values under the encoder's native key for the field.
    fn set_field(&mut self, field: Field, value: Vec<String>)
        requires
            !old(self).saved(),
        ensures
            final(self).entries() == old(self).entries().push(
                (
                    old(self).native_key(field),
                    join_spec(value@.map_values(|v: String| v@), old(self).separator()),
                ),
            ),
            final(self).separator() == old(self).separator(),
            final(self).saved() == old(self).saved(),
            final(self).release() == old(self).release(),
            final(self).cover() == old(self).cover(),
            final(self).ufid() == old(self).ufid(),
            forall|f: Field| final(self).native_key(f) == old(self).native_key(f),
            final(self).bound_path() == old(self).bound_path(),
            final(self).commit_format() == old(self).commit_format(),
    ;

    /// Parse the date as a release timestamp and store it; a string the
    /// timestamp grammar rejects fails with `TagEncoding` and changes
    /// nothing.
    fn set_release_date(&mut self, date: String) -> (r: Result<(), SpotifyError>)
        requires
            !old(self).saved(),
        ensures
            r is Ok <==> release_timestamp_of(date@) is Some,
            r matches Err(e) ==> e matches SpotifyError::TagEncoding,
            release_timestamp_of(date@) matches Some(t) ==> (final(self).release() matches Some(d)
                && d.parts() == t),
            release_timestamp_of(date@) is None ==> final(self).release() == old(self).release(),
            final(self).entries() == old(self).entries(),
            final(self).separator() == old(self).separator(),
            final(self).saved() == old(self).saved(),
            final(self).cover() == old(self).cover(),
            final(self).ufid() == old(self).ufid(),
            forall|f: Field| final(self).native_key(f) == old(self).native_key(f),
            final(self).bound_path() == old(self).bound_path(),
            final(self).commit_format() == old(self).commit_format(),
    ;

    /// Store a single front-cover image, replacing any earlier one; the
    /// description and picture type are fixed by the encoder.
    fn add_cover(&mut self, mime: &str, data: Vec<u8>)
        requires
            !old(self).saved(),
        ensures
            final(self).cover() == Some((mime@, data@)),
            final(self).entries() == old(self).entries(),
            final(self).separator() == old(self).separator(),
            final(self).saved() == old(self).saved(),
            final(self).release() == old(self).release(),
            final(self).ufid() == old(self).ufid(),
            forall|f: Field| final(self).native_key(f) == old(self).native_key(f),
            final(self).bound_path() == old(self).bound_path(),
            final(self).commit_format() == old(self).commit_format(),
    ;

    /// Store the canonical source identifier of the track under the fixed
    /// owner namespace, replacing any earlier one.
    fn add_unique_file_identifier(&mut self, track_id: &str)
        requires
            !old(self).saved(),
        ensures
            final(self).ufid() == Some(track_id@),
            final(self).entries() == old(self).entries(),
            final(self).separator() == old(self).separator(),
            final(self).saved() == old(self).saved(),
            final(self).release() == old(self).release(),
            final(self).cover() == old(self).cover(),
            forall|f: Field| final(self).native_key(f) == old(self).native_key(f),
            final(self).bound_path() == old(self).bound_path(),
            final(self).commit_format() == old(self).commit_format(),
    ;

    /// Mark the accumulated mutations committed. Committing an already
    /// committed instance with no intervening mutation is a no-op that
    /// succeeds again.
    fn save(&mut self) -> (r: Result<(), SpotifyError>)
        ensures
            r is Ok,
            final(self).saved(),
            final(self).entries() == old(self).entries(),
            final(self).separator() == old(self).separator(),
            final(self).release() == old(self).release(),
            final(self).cover() == old(self).cover(),
            final(self).ufid() == old(self).ufid(),
            forall|f: Field| final(self).native_key(f) == old(self).native_key(f),
            final(self).bound_path() == old(self).bound_path(),
            final(self).commit_format() == old(self).commit_format(),
    ;

    /// Read back the latest value stored under a native key.
    fn get_raw(&self, tag: &str) -> (r: Option<String>)
        ensures
            ({
                let l = lookup_entry(self.entries(), tag@);
                &&& (l is None ==> r is None)
                &&& (l matches Some(v) ==> (r matches Some(s) && s@ == v))
            }),
    ;
}

/// A tag writer that was just opened: nothing stored, nothing committed,
/// the separator empty.
pub open spec fn is_fresh<T: Tag>(t: T) -> bool {
    &&& t.entries() == Seq::<(Seq<char>, Seq<char>)>::empty()
    &&& t.separator() == Seq::<char>::empty()
    &&& !t.saved()
    &&& t.release() is None
    &&& t.cover() is None
    &&& t.ufid() is None
}

/// The tag writer for one file, fixed to one encoding at construction: a
/// Vorbis comment block or an ID3v2 tag. The two never mix on one instance.
#[derive(Debug, Clone)]
pub enum TagWrap {
    /// The Vorbis-comment encoder.
    Ogg(ogg::OggTag),
    /// The ID3v2 encoder.
    Id3(id3::ID3Tag),
}

impl TagWrap {
    /// Open a tag writer for the file at `path`, choosing the encoder by
    /// the audio container format. Every format without an encoder is
    /// rejected as unsupported before any field can be set.
    pub fn new(path: &str, format: AudioFormat) -> (r: Result<TagWrap, SpotifyError>)
        ensures
            format == AudioFormat::Ogg ==> (r matches Ok(w) && w matches TagWrap::Ogg(t)
                && is_fresh(t) && t.path_spec() == path@),
            format == AudioFormat::Mp3 ==> (r matches Ok(w) && w matches TagWrap::Id3(t)
                && is_fresh(t) && t.path_spec() == path@),
            format != AudioFormat::Ogg && format != AudioFormat::Mp3 ==> (r matches Err(e)
                && e matches SpotifyError::UnsupportedFormat),
    {
        match format {
            AudioFormat::Ogg => Ok(TagWrap::Ogg(ogg::OggTag::open(path)?)),
            AudioFormat::Mp3 => Ok(TagWrap::Id3(id3::ID3Tag::open(path)?)),
            _ => Err(SpotifyError::UnsupportedFormat),
        }
    }
}

impl Tag for TagWrap {
    open spec fn entries(&self) -> Seq<(Seq<char>, Seq<char>)> {
        match self {
            TagWrap::Ogg(t) => t.entries(),
            TagWrap::Id3(t) => t.entries(),
        }
    }

    open spec fn separator(&self) -> Seq<char> {
        match self {
            TagWrap::Ogg(t) => t.separator(),
            TagWrap::Id3(t) => t.separator(),
        }
    }

    open spec fn saved(&self) -> bool {
        match self {
            TagWrap::Ogg(t) => t.saved(),
            TagWrap::Id3(t) => t.saved(),
        }
    }

    open spec fn release(&self) -> Option<ReleaseDate> {
        match self {
            TagWrap::Ogg(t) => t.release(),
            TagWrap::Id3(t) => t.release(),
        }
    }

    open spec fn cover(&self) -> Option<(Seq<char>, Seq<u8>)> {
        match self {
            TagWrap::Ogg(t) => t.cover(),
            TagWrap::Id3(t) => t.cover(),
        }
    }

    open spec fn ufid(&self) -> Option<Seq<char>> {
        match self {
            TagWrap::Ogg(t) => t.ufid(),
            TagWrap::Id3(t) => t.ufid(),
        }
    }

    open spec fn native_key(&self, f: Field) -> Seq<char> {
        match self {
            TagWrap::Ogg(t) => t.native_key(f),
            TagWrap::Id3(t) => t.native_key(f),
        }
    }

    open spec fn bound_path(&self) -> Seq<char> {
        match self {
            TagWrap::Ogg(t) => t.bound_path(),
            TagWrap::Id3(t) => t.bound_path(),
        }
    }

    open spec fn commit_format(&self) -> CommitFormat {
        match self {
            TagWrap::Ogg(t) => t.commit_format(),
            TagWrap::Id3(t) => t.commit_format(),
        }
    }

    fn set_separator(&mut self, separator: &str) {
        match self {
            TagWrap::Ogg(t) => t.set_separator(separator),
            TagWrap::Id3(t) => t.set_separator(separator),
        }
    }

    fn set_raw(&mut self, tag: &str, value: Vec<String>) {
        match self {
            TagWrap::Ogg(t) => t.set_raw(tag, value),
            TagWrap::Id3(t) => t.set_raw(tag, value),
        }
    }

    fn set_field(&mut self, field: Field, value: Vec<String>) {
        match self {
            TagWrap::Ogg(t) => t.set_field(field, value),
            TagWrap::Id3(t) => t.set_field(field, value),
        }
    }

    fn set_release_date(&mut self, date: String) -> (r: Result<(), SpotifyError>) {
        match self {
            TagWrap::Ogg(t) => t.set_release_date(date),
            TagWrap::Id3(t) => t.set_release_date(date),
        }
    }

    fn add_cover(&mut self, mime: &str, data: Vec<u8>) {
        match self {
            TagWrap::Ogg(t) => t.add_cover(mime, data),
            TagWrap::Id3(t) => t.add_cover(mime, data),
        }
    }

    fn add_unique_file_identifier(&mut self, track_id: &str) {
        match self {
            TagWrap::Ogg(t) => t.add_unique_file_identifier(track_id),
            TagWrap::Id3(t) => t.add_unique_file_identifier(track_id),
        }
    }

    fn save(&mut self) -> (r: Result<(), SpotifyError>) {
        match self {
            TagWrap::Ogg(t) => t.save(),
            TagWrap::Id3(t) => t.save(),
        }
    }

    fn get_raw(&self, tag: &str) -> (r: Option<String>) {
        match self {
            TagWrap::Ogg(t) => t.get_raw(tag),
            TagWrap::Id3(t) => t.get_raw(tag),
        }
    }
}

} // verus!
