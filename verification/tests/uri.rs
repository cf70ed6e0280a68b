use spottag::error::SpotifyError;
use spottag::uri::{parse_uri, split_colon_segments, str_eq};

#[test]
fn native_uri_roundtrip() {
    let r = parse_uri("spotify:track:4uLU6hMCjMI75M1A2tKUQC");
    assert_eq!(r.unwrap(), "spotify:track:4uLU6hMCjMI75M1A2tKUQC");
}

#[test]
fn native_uri_extra_segments_kept() {
    let r = parse_uri("spotify:user:someone:playlist:abc");
    assert_eq!(r.unwrap(), "spotify:user:someone:playlist:abc");
}

#[test]
fn native_uri_too_few_segments() {
    assert!(matches!(parse_uri("spotify:track"), Err(SpotifyError::InvalidUri)));
}

#[test]
fn native_uri_scheme_and_one_colon() {
    // "spotify:" splits into two segments only.
    assert!(matches!(parse_uri("spotify:"), Err(SpotifyError::InvalidUri)));
}

#[test]
fn web_url_two_segments() {
    let r = parse_uri("https://open.spotify.com/track/4uLU6hMCjMI75M1A2tKUQC");
    assert_eq!(r.unwrap(), "spotify:track:4uLU6hMCjMI75M1A2tKUQC");
}

#[test]
fn web_url_extra_path_ignored() {
    let r = parse_uri("https://open.spotify.com/album/abc123/extra/bits");
    assert_eq!(r.unwrap(), "spotify:album:abc123");
}

#[test]
fn web_url_query_ignored() {
    let r = parse_uri("https://open.spotify.com/playlist/xyz?si=share");
    assert_eq!(r.unwrap(), "spotify:playlist:xyz");
}

#[test]
fn web_url_one_segment_fails() {
    assert!(matches!(
        parse_uri("https://open.spotify.com/track"),
        Err(SpotifyError::InvalidUri)
    ));
}

#[test]
fn other_host_fails() {
    assert!(matches!(
        parse_uri("https://example.com/track/abc"),
        Err(SpotifyError::InvalidUri)
    ));
}

#[test]
fn not_a_url_fails() {
    assert!(matches!(parse_uri("just some words"), Err(SpotifyError::InvalidUri)));
}

#[test]
fn reparse_of_web_result_is_identity() {
    let once = parse_uri("https://open.spotify.com/artist/42abc").unwrap();
    let twice = parse_uri(&once).unwrap();
    assert_eq!(once, twice);
}

#[test]
fn split_segments_basic() {
    let segs = split_colon_segments("spotify:track:abc");
    assert_eq!(segs, vec!["spotify".to_string(), "track".to_string(), "abc".to_string()]);
}

#[test]
fn split_segments_empty_pieces() {
    let segs = split_colon_segments("a::b:");
    assert_eq!(
        segs,
        vec!["a".to_string(), "".to_string(), "b".to_string(), "".to_string()]
    );
}

#[test]
fn split_segments_no_colon() {
    assert_eq!(split_colon_segments("plain"), vec!["plain".to_string()]);
}

#[test]
fn error_messages_are_descriptive() {
    assert!(SpotifyError::InvalidUri.message().contains("invalid"));
    assert!(SpotifyError::UnsupportedFormat.message().contains("unsupported"));
    assert!(SpotifyError::TagEncoding.message().contains("tag"));
    assert!(SpotifyError::Remote("boom".to_string()).message().contains("boom"));
}

#[test]
fn str_eq_behaves() {
    assert!(str_eq("abc", "abc"));
    assert!(!str_eq("abc", "abd"));
    assert!(!str_eq("abc", "abcd"));
}
