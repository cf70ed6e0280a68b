use spottag::catalog::{
    append_page, concat_track_groups, playlist_tracks, resolve_plan, search_track_items,
    PlayableEntry, PlaylistSlot, ResolveAction, SearchOutcome, TrackRecord,
};

fn track(id: &str, title: &str, album: &str, number: u32) -> TrackRecord {
    TrackRecord {
        id: id.to_string(),
        title: title.to_string(),
        artists: vec!["Artist".to_string()],
        album: album.to_string(),
        track_number: number,
        disc_number: 1,
    }
}

fn ids(tracks: &[TrackRecord]) -> Vec<String> {
    tracks.iter().map(|t| t.id.clone()).collect()
}

#[test]
fn resolve_plan_track() {
    let r = resolve_plan("spotify:track:abc");
    assert!(matches!(r, ResolveAction::FetchTrack(id) if id == "abc"));
}

#[test]
fn resolve_plan_playlist() {
    let r = resolve_plan("spotify:playlist:p1");
    assert!(matches!(r, ResolveAction::FetchPlaylist(id) if id == "p1"));
}

#[test]
fn resolve_plan_album() {
    let r = resolve_plan("spotify:album:a1");
    assert!(matches!(r, ResolveAction::FetchAlbum(id) if id == "a1"));
}

#[test]
fn resolve_plan_artist() {
    let r = resolve_plan("spotify:artist:z9");
    assert!(matches!(r, ResolveAction::FetchArtist(id) if id == "z9"));
}

#[test]
fn resolve_plan_unknown_kind() {
    let r = resolve_plan("spotify:episode:e1");
    assert!(matches!(r, ResolveAction::Other(o) if o == "spotify:episode:e1"));
}

#[test]
fn playlist_expansion_filters_and_keeps_order() {
    let items = vec![
        PlaylistSlot { playable: Some(PlayableEntry::Track(track("t1", "One", "A", 1))) },
        PlaylistSlot { playable: None },
        PlaylistSlot { playable: Some(PlayableEntry::Episode) },
        PlaylistSlot { playable: Some(PlayableEntry::Track(track("t2", "Two", "A", 2))) },
        PlaylistSlot { playable: Some(PlayableEntry::Track(track("t3", "Three", "B", 1))) },
    ];
    let tracks = playlist_tracks(items);
    assert_eq!(ids(&tracks), vec!["t1", "t2", "t3"]);
}

#[test]
fn playlist_expansion_empty() {
    assert!(playlist_tracks(Vec::new()).is_empty());
}

#[test]
fn album_expansion_keeps_page_order() {
    // 120 tracks over pages of 50: three pages, nothing skipped, nothing
    // deduplicated, original order preserved.
    let mut pages: Vec<Vec<TrackRecord>> = Vec::new();
    let mut n = 0;
    while n < 120 {
        let mut page = Vec::new();
        for _ in 0..50 {
            if n >= 120 {
                break;
            }
            page.push(track(&format!("t{n}"), &format!("Track {n}"), "Album", n + 1));
            n += 1;
        }
        pages.push(page);
    }
    assert_eq!(pages.len(), 3);
    let all = concat_track_groups(pages);
    assert_eq!(all.len(), 120);
    for (i, t) in all.iter().enumerate() {
        assert_eq!(t.id, format!("t{i}"));
    }
}

#[test]
fn album_expansion_keeps_duplicates() {
    let pages = vec![
        vec![track("dup", "Same", "A", 1)],
        vec![track("dup", "Same", "A", 1)],
    ];
    let all = concat_track_groups(pages);
    assert_eq!(ids(&all), vec!["dup", "dup"]);
}

#[test]
fn artist_expansion_album_order() {
    // Albums [A, B] with track counts [2, 3]: the flat output is exactly
    // A's tracks then B's tracks, each in album order.
    let album_a = vec![track("a1", "A One", "A", 1), track("a2", "A Two", "A", 2)];
    let album_b = vec![
        track("b1", "B One", "B", 1),
        track("b2", "B Two", "B", 2),
        track("b3", "B Three", "B", 3),
    ];
    let all = concat_track_groups(vec![album_a, album_b]);
    assert_eq!(ids(&all), vec!["a1", "a2", "b1", "b2", "b3"]);
}

#[test]
fn append_page_extends_in_order() {
    let mut acc = vec![track("x", "X", "A", 1)];
    append_page(&mut acc, vec![track("y", "Y", "A", 2), track("z", "Z", "A", 3)]);
    assert_eq!(ids(&acc), vec!["x", "y", "z"]);
}

#[test]
fn search_tracks_pass_through() {
    let found = vec![track("s1", "Hit", "A", 1), track("s2", "Hit 2", "A", 2)];
    let r = search_track_items(SearchOutcome::Tracks(found));
    assert_eq!(ids(&r), vec!["s1", "s2"]);
}

#[test]
fn search_non_track_collapses_to_empty() {
    assert!(search_track_items(SearchOutcome::Other).is_empty());
}
