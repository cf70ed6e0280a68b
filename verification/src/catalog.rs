//! Dispatching a canonical reference to the right remote fetch, and folding
//! fetched pages of tracks into one flat, ordered list.

use vstd::prelude::*;

use crate::uri::split_colons;

verus! {

/// The track-level metadata this library accumulates during expansion:
/// plain values only, as the rest of the system reads them.
#[derive(Debug, Clone)]
pub struct TrackRecord {
    /// The external identifier of the track.
    pub id: String,
    /// The track title.
    pub title: String,
    /// The performing artists, in listing order.
    pub artists: Vec<String>,
    /// The album the track appears on.
    pub album: String,
    /// The one-based position of the track on its disc.
    pub track_number: u32,
    /// The one-based disc number.
    pub disc_number: u32,
}

/// Which single remote fetch a canonical reference calls for. An unknown
/// kind keeps the original input and reaches no fetch at all.
#[derive(Debug, Clone)]
pub enum ResolveAction {
    /// Fetch one track by id.
    FetchTrack(String),
    /// Fetch one playlist by id.
    FetchPlaylist(String),
    /// Fetch one album by id.
    FetchAlbum(String),
    /// Fetch one artist by id.
    FetchArtist(String),
    /// An unrecognized kind: the original input, fetched from nowhere.
    Other(String),
}

/// Decide which remote fetch a canonical reference calls for. The kind is
/// the second colon-delimited segment, the id the third; every kind outside
/// the four known ones keeps the whole input as `Other` and determines that
/// no fetch runs.
pub fn resolve_plan(uri: &str) -> (r: ResolveAction)
    requires
        split_colons(uri@).len() >= 3,
    ensures
        ({
            let kind = split_colons(uri@)[1];
            let id = split_colons(uri@)[2];
            &&& (kind == "track"@ ==> (r matches ResolveAction::FetchTrack(i) && i@ == id))
            &&& (kind == "playlist"@ ==> (r matches ResolveAction::FetchPlaylist(i) && i@ == id))
            &&& (kind == "album"@ ==> (r matches ResolveAction::FetchAlbum(i) && i@ == id))
            &&& (kind == "artist"@ ==> (r matches ResolveAction::FetchArtist(i) && i@ == id))
            &&& (kind != "track"@ && kind != "playlist"@ && kind != "album"@ && kind != "artist"@
                ==> (r matches ResolveAction::Other(o) && o@ == uri@))
        }),
{
    let segs = crate::uri::split_colon_segments(uri);
    proof {
        assert(segs@.map_values(|v: String| v@)[1] == segs@[1]@);
        assert(segs@.map_values(|v: String| v@)[2] == segs@[2]@);
        reveal_strlit("track");
        reveal_strlit("playlist");
        reveal_strlit("album");
        reveal_strlit("artist");
        assert("track"@[0] == 't' && "album"@[0] == 'a' && "artist"@[0] == 'a');
        assert("track"@.len() == 5 && "playlist"@.len() == 8 && "album"@.len() == 5
            && "artist"@.len() == 6);
        assert("track"@ != "playlist"@);
        assert("track"@ != "album"@);
        assert("track"@ != "artist"@);
        assert("playlist"@ != "album"@);
        assert("playlist"@ != "artist"@);
        assert("album"@ != "artist"@);
    }
    let kind = &segs[1];
    let id = segs[2].clone();
    if crate::uri::str_eq(kind.as_str(), "track") {
        ResolveAction::FetchTrack(id)
    } else if crate::uri::str_eq(kind.as_str(), "playlist") {
        ResolveAction::FetchPlaylist(id)
    } else if crate::uri::str_eq(kind.as_str(), "album") {
        ResolveAction::FetchAlbum(id)
    } else if crate::uri::str_eq(kind.as_str(), "artist") {
        ResolveAction::FetchArtist(id)
    } else {
        ResolveAction::Other(String::from_str(uri))
    }
}

/// One playable entry of a playlist: a track, or some other playable kind
/// (an episode) that expansion discards.
#[derive(Debug, Clone)]
pub enum PlayableEntry {
    /// A track with its metadata.
    Track(TrackRecord),
    /// Any non-track playable kind.
    Episode,
}

/// One slot of a playlist's listing: possibly empty.
#[derive(Debug, Clone)]
pub struct PlaylistSlot {
    /// The playable in the slot, or `None` for an empty slot.
    pub playable: Option<PlayableEntry>,
}

/// The tracks among a playlist's slots, in playlist order: empty slots and
/// non-track playables are dropped, everything else is kept.
pub open spec fn playlist_tracks_spec(items: Seq<PlaylistSlot>) -> Seq<TrackRecord>
    decreases items.len(),
{
    if items.len() == 0 {
        Seq::empty()
    } else {
        let rest = playlist_tracks_spec(items.drop_first());
        match items[0].playable {
            Option::Some(PlayableEntry::Track(t)) => seq![t].add(rest),
            _ => rest,
        }
    }
}

/// Keep the tracks of one page of a playlist listing, in order, discarding
/// empty slots and non-track playables.
pub fn playlist_tracks(items: Vec<PlaylistSlot>) -> (r: Vec<TrackRecord>)
    ensures
        r@ == playlist_tracks_spec(items@),
{
    let ghost orig = items@;
    let mut items = items;
    let mut out: Vec<TrackRecord> = Vec::new();
    proof {
        assert(out@.add(playlist_tracks_spec(items@)) =~= playlist_tracks_spec(orig));
    }
    while items.len() > 0
        invariant
            out@.add(playlist_tracks_spec(items@)) == playlist_tracks_spec(orig),
        decreases items.len(),
    {
        let ghost pre = items@;
        let slot = items.remove(0);
        proof {
            assert(pre.drop_first() =~= items@);
        }
        match slot.playable {
            Some(PlayableEntry::Track(t)) => {
                out.push(t);
                proof {
                    assert(out@.add(playlist_tracks_spec(items@)) =~= playlist_tracks_spec(orig));
                }
            },
            _ => {},
        }
    }
    proof {
        assert(out@ =~= playlist_tracks_spec(orig));
    }
    out
}

/// The tracks of a list of groups — an album's pages, or an artist's albums
/// — laid out flat: group after group, each group's tracks in their own
/// order, nothing dropped, nothing reordered, nothing deduplicated.
pub open spec fn flatten_groups(groups: Seq<Vec<TrackRecord>>) -> Seq<TrackRecord> {
    groups.map_values(|v: Vec<TrackRecord>| v@).flatten()
}

/// Concatenate groups of tracks in the order given: the pages of an album as
/// the paging primitive yielded them, or the expanded albums of an artist in
/// listing order.
pub fn concat_track_groups(groups: Vec<Vec<TrackRecord>>) -> (r: Vec<TrackRecord>)
    ensures
        r@ == flatten_groups(groups@),
{
    let ghost orig = groups@;
    let mut groups = groups;
    let mut out: Vec<TrackRecord> = Vec::new();
    proof {
        assert(out@.add(flatten_groups(groups@)) =~= flatten_groups(orig));
    }
    while groups.len() > 0
        invariant
            out@.add(flatten_groups(groups@)) == flatten_groups(orig),
        decreases groups.len(),
    {
        let ghost pre = groups@;
        let ghost pre_out = out@;
        let mut page = groups.remove(0);
        out.append(&mut page);
        proof {
            assert(pre.drop_first() =~= groups@);
            let mapped = pre.map_values(|v: Vec<TrackRecord>| v@);
            assert(mapped.drop_first() =~= groups@.map_values(|v: Vec<TrackRecord>| v@));
            assert(flatten_groups(pre) == mapped.first().add(mapped.drop_first().flatten()));
            assert(out@.add(flatten_groups(groups@)) =~= flatten_groups(orig));
        }
    }
    proof {
        assert(out@ =~= flatten_groups(orig));
    }
    out
}

/// Append one fetched page of tracks to the accumulated expansion, keeping
/// the accumulated order and the page's own order.
pub fn append_page(tracks: &mut Vec<TrackRecord>, page: Vec<TrackRecord>)
    ensures
        final(tracks)@ == old(tracks)@.add(page@),
{
    let mut page = page;
    tracks.append(&mut page);
}

/// Expansion order, page by page: extending an expansion by its next page
/// appends exactly that page's tracks — no page is skipped, no track is
/// dropped or reordered, and duplicates stay.
pub proof fn lemma_expansion_order(pages: Seq<Seq<TrackRecord>>, k: int)
    requires
        0 <= k < pages.len(),
    ensures
        pages.take(k + 1).flatten() == pages.take(k).flatten().add(pages[k]),
{
    assert(pages.take(k + 1) =~= pages.take(k).push(pages[k]));
    pages.take(k).lemma_flatten_push(pages[k]);
}

/// What a track search returns: a page of track results, or some other
/// result category.
#[derive(Debug, Clone)]
pub enum SearchOutcome {
    /// The track results, in ranking order.
    Tracks(Vec<TrackRecord>),
    /// Any non-track result category.
    Other,
}

/// The tracks of a search outcome: a track page is handed through in order,
/// and every other result category collapses to an empty list.
pub fn search_track_items(outcome: SearchOutcome) -> (r: Vec<TrackRecord>)
    ensures
        outcome matches SearchOutcome::Tracks(v) ==> r == v,
        outcome matches SearchOutcome::Other ==> r@ == Seq::<TrackRecord>::empty(),
{
    match outcome {
        SearchOutcome::Tracks(v) => v,
        SearchOutcome::Other => Vec::new(),
    }
}

} // verus!
