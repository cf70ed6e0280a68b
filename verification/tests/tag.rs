use spottag::error::SpotifyError;
use spottag::tag::id3::{ID3Tag, Id3Version};
use spottag::tag::ogg::OggTag;
use spottag::tag::{AudioFormat, Field, ReleaseDate, Tag, TagWrap};

#[test]
fn open_rejects_unsupported_format() {
    let r = TagWrap::new("song.m4a", AudioFormat::Aac);
    assert!(matches!(r, Err(SpotifyError::UnsupportedFormat)));
}

#[test]
fn open_selects_ogg_encoder() {
    let w = TagWrap::new("song.ogg", AudioFormat::Ogg).unwrap();
    assert!(matches!(w, TagWrap::Ogg(_)));
}

#[test]
fn open_selects_id3_encoder() {
    let w = TagWrap::new("song.mp3", AudioFormat::Mp3).unwrap();
    assert!(matches!(w, TagWrap::Id3(_)));
}

#[test]
fn id3_title_joined_under_native_key() {
    let mut t = ID3Tag::open("song.mp3").unwrap();
    t.set_separator("; ");
    t.set_field(Field::Title, vec!["Foo".to_string(), "Bar".to_string()]);
    assert_eq!(t.get_raw("TIT2").unwrap(), "Foo; Bar");
    assert!(t.get_raw("TITLE").is_none());
}

#[test]
fn ogg_title_joined_under_native_key() {
    let mut t = OggTag::open("song.ogg").unwrap();
    t.set_separator("; ");
    t.set_field(Field::Title, vec!["Foo".to_string(), "Bar".to_string()]);
    assert_eq!(t.get_raw("TITLE").unwrap(), "Foo; Bar");
    assert!(t.get_raw("TIT2").is_none());
}

#[test]
fn default_separator_is_empty() {
    let mut t = ID3Tag::open("song.mp3").unwrap();
    t.set_field(Field::Artist, vec!["A".to_string(), "B".to_string()]);
    assert_eq!(t.get_raw("TPE1").unwrap(), "AB");
}

#[test]
fn single_value_has_no_separator() {
    let mut t = OggTag::open("song.ogg").unwrap();
    t.set_separator(", ");
    t.set_field(Field::Genre, vec!["Jazz".to_string()]);
    assert_eq!(t.get_raw("GENRE").unwrap(), "Jazz");
}

#[test]
fn field_mapping_both_encoders() {
    let fields = [
        Field::Title,
        Field::Artist,
        Field::Album,
        Field::TrackNumber,
        Field::DiscNumber,
        Field::Genre,
        Field::Label,
        Field::AlbumArtist,
    ];
    let id3_keys = ["TIT2", "TPE1", "TALB", "TRCK", "TPOS", "TCON", "TPUB", "TPE2"];
    let ogg_keys = [
        "TITLE",
        "ARTIST",
        "ALBUM",
        "TRACKNUMBER",
        "DISCNUMBER",
        "GENRE",
        "LABEL",
        "ALBUMARTIST",
    ];
    let mut a = ID3Tag::open("song.mp3").unwrap();
    let mut b = OggTag::open("song.ogg").unwrap();
    for (i, f) in fields.iter().enumerate() {
        a.set_field(*f, vec![format!("v{i}")]);
        b.set_field(*f, vec![format!("v{i}")]);
        assert_eq!(a.get_raw(id3_keys[i]).unwrap(), format!("v{i}"));
        assert_eq!(b.get_raw(ogg_keys[i]).unwrap(), format!("v{i}"));
    }
}

#[test]
fn set_raw_uses_caller_key_verbatim() {
    let mut t = ID3Tag::open("song.mp3").unwrap();
    t.set_raw("TXXX", vec!["custom".to_string()]);
    assert_eq!(t.get_raw("TXXX").unwrap(), "custom");
}

#[test]
fn resetting_a_field_overwrites_it() {
    let mut t = ID3Tag::open("song.mp3").unwrap();
    t.set_field(Field::Album, vec!["First".to_string()]);
    t.set_field(Field::Album, vec!["Second".to_string()]);
    assert_eq!(t.get_raw("TALB").unwrap(), "Second");
}

#[test]
fn unset_key_reads_back_nothing() {
    let t = OggTag::open("song.ogg").unwrap();
    assert!(t.get_raw("ALBUM").is_none());
}

#[test]
fn release_date_invalid_fails() {
    let mut t = ID3Tag::open("song.mp3").unwrap();
    let r = t.set_release_date("not-a-date".to_string());
    assert!(matches!(r, Err(SpotifyError::TagEncoding)));
    assert!(t.release_date().is_none());
}

#[test]
fn release_date_valid_is_stored() {
    let mut t = ID3Tag::open("song.mp3").unwrap();
    t.set_release_date("2024-01-01".to_string()).unwrap();
    assert_eq!(
        t.release_date().unwrap(),
        ReleaseDate {
            year: 2024,
            month: Some(1),
            day: Some(1),
            hour: None,
            minute: None,
            second: None,
        }
    );
}

#[test]
fn release_date_year_only() {
    let mut t = OggTag::open("song.ogg").unwrap();
    t.set_release_date("1999".to_string()).unwrap();
    let d = t.release_date().unwrap();
    assert_eq!(d.year, 1999);
    assert!(d.month.is_none());
}

#[test]
fn cover_is_stored_with_mime() {
    let mut t = ID3Tag::open("song.mp3").unwrap();
    t.add_cover("image/jpeg", vec![0xFF, 0xD8, 0xFF]);
    let cover = t.cover_image().clone().unwrap();
    assert_eq!(cover.0, "image/jpeg");
    assert_eq!(cover.1, vec![0xFF, 0xD8, 0xFF]);
}

#[test]
fn unique_file_identifier_is_stored() {
    let mut t = OggTag::open("song.ogg").unwrap();
    t.add_unique_file_identifier("4uLU6hMCjMI75M1A2tKUQC");
    assert_eq!(t.unique_file_identifier().clone().unwrap(), "4uLU6hMCjMI75M1A2tKUQC");
}

#[test]
fn id3_version_toggle() {
    let mut t = ID3Tag::open("song.mp3").unwrap();
    assert_eq!(t.version(), Id3Version::V23);
    t.use_id3_v24(true);
    assert_eq!(t.version(), Id3Version::V24);
    t.use_id3_v24(false);
    assert_eq!(t.version(), Id3Version::V23);
}

#[test]
fn save_twice_is_a_noop_success() {
    // The chosen policy: a second commit with no intervening mutation is a
    // no-op that succeeds again, leaving every stored value as it was.
    let mut t = ID3Tag::open("song.mp3").unwrap();
    t.set_field(Field::Title, vec!["Once".to_string()]);
    assert!(t.save().is_ok());
    assert!(t.is_saved());
    assert!(t.save().is_ok());
    assert!(t.is_saved());
    assert_eq!(t.get_raw("TIT2").unwrap(), "Once");
}

#[test]
fn save_through_wrap_dispatches() {
    let mut w = TagWrap::new("song.ogg", AudioFormat::Ogg).unwrap();
    w.set_field(Field::Album, vec!["Wrapped".to_string()]);
    assert_eq!(w.get_raw("ALBUM").unwrap(), "Wrapped");
    assert!(w.save().is_ok());
    assert!(w.save().is_ok());
}
