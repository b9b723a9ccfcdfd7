use mpris_client_async::player_types::{MetaValue, Metadata, TrackId};
use mpris_client_async::StringHashMap;

fn empty_value() -> MetaValue {
    MetaValue {
        string: None,
        object_path: None,
        int64: None,
        int32: None,
        double_bits: None,
        string_list: None,
    }
}

fn string_value(s: &str) -> MetaValue {
    MetaValue { string: Some(s.to_string()), ..empty_value() }
}

fn list_value(items: &[&str]) -> MetaValue {
    MetaValue {
        string_list: Some(items.iter().map(|s| s.to_string()).collect()),
        ..empty_value()
    }
}

const NO_TRACK: &str = "/org/mpris/MediaPlayer2/TrackList/NoTrack";

#[test]
fn empty_map_gives_defaults() {
    let m = Metadata::new_from_hashmap(StringHashMap::new());
    assert_eq!(m.trackid.clone().into_inner(), NO_TRACK);
    assert_eq!(m.length, None);
    assert_eq!(m.art_url, None);
    assert_eq!(m.album, "");
    assert!(m.artists.is_empty());
    assert!(m.album_artist.is_empty());
    assert_eq!(m.title, "");
    assert_eq!(m.lyrics, "");
    assert_eq!(m.bpm, 0);
    assert_eq!(m.auto_rating, 0);
    assert_eq!(m.user_rating, 0);
    assert!(m.comments.is_empty());
    assert!(m.composers.is_empty());
    assert_eq!(m.disc_number, 0);
    assert_eq!(m.track_number, 0);
    assert_eq!(m.url, "");
    assert!(m.genres.is_empty());
    assert!(m.lyricists.is_empty());
    assert_eq!(m.created, "");
    assert_eq!(m.first_used, "");
    assert_eq!(m.last_used, "");
    assert_eq!(m.use_count, 0);
}

#[test]
fn full_map_is_read_field_by_field() {
    let mut map = StringHashMap::new();
    map.insert(
        "mpris:trackid".to_string(),
        MetaValue { object_path: Some("/org/mpd/Tracks/7".to_string()), ..empty_value() },
    );
    map.insert("mpris:length".to_string(), MetaValue { int64: Some(215_000_000), ..empty_value() });
    map.insert("mpris:artUrl".to_string(), string_value("file:///tmp/cover.png"));
    map.insert("xesam:album".to_string(), string_value("Blue"));
    map.insert("xesam:artist".to_string(), list_value(&["Joni Mitchell"]));
    map.insert("xesam:albumArtist".to_string(), list_value(&["Joni Mitchell", "Guest"]));
    map.insert("xesam:title".to_string(), string_value("River"));
    map.insert("xesam:asText".to_string(), string_value("It's coming on Christmas"));
    map.insert("xesam:audioBPM".to_string(), MetaValue { int64: Some(92), ..empty_value() });
    map.insert(
        "xesam:autoRating".to_string(),
        MetaValue { double_bits: Some(0.5f64.to_bits()), ..empty_value() },
    );
    map.insert(
        "xesam:userRating".to_string(),
        MetaValue { double_bits: Some(1.0f64.to_bits()), ..empty_value() },
    );
    map.insert("xesam:comment".to_string(), list_value(&["a", "b"]));
    map.insert("xesam:composer".to_string(), list_value(&["J. M."]));
    map.insert("xesam:discNumber".to_string(), MetaValue { int32: Some(1), ..empty_value() });
    map.insert("xesam:trackNumber".to_string(), MetaValue { int32: Some(4), ..empty_value() });
    map.insert("xesam:url".to_string(), string_value("file:///music/river.flac"));
    map.insert("xesam:genre".to_string(), list_value(&["Folk"]));
    map.insert("xesam:lyricist".to_string(), list_value(&["Joni"]));
    map.insert("xesam:contentCreated".to_string(), string_value("1971-06-22"));
    map.insert("xesam:firstUsed".to_string(), string_value("2020-01-01T00:00"));
    map.insert("xesam:lastUsed".to_string(), string_value("2024-12-24T20:00"));
    map.insert("xesam:useCount".to_string(), MetaValue { int32: Some(33), ..empty_value() });

    let m = Metadata::new_from_hashmap(map);
    assert_eq!(m.trackid, TrackId::from("/org/mpd/Tracks/7".to_string()));
    assert_eq!(m.length, Some(215_000_000));
    assert_eq!(m.art_url, Some("file:///tmp/cover.png".to_string()));
    assert_eq!(m.album, "Blue");
    assert_eq!(m.artists, vec!["Joni Mitchell".to_string()]);
    assert_eq!(m.album_artist, vec!["Joni Mitchell".to_string(), "Guest".to_string()]);
    assert_eq!(m.title, "River");
    assert_eq!(m.lyrics, "It's coming on Christmas");
    assert_eq!(m.bpm, 92);
    assert_eq!(f64::from_bits(m.auto_rating), 0.5);
    assert_eq!(f64::from_bits(m.user_rating), 1.0);
    assert_eq!(m.comments, vec!["a".to_string(), "b".to_string()]);
    assert_eq!(m.composers, vec!["J. M.".to_string()]);
    assert_eq!(m.disc_number, 1);
    assert_eq!(m.track_number, 4);
    assert_eq!(m.url, "file:///music/river.flac");
    assert_eq!(m.genres, vec!["Folk".to_string()]);
    assert_eq!(m.lyricists, vec!["Joni".to_string()]);
    assert_eq!(m.created, "1971-06-22");
    assert_eq!(m.first_used, "2020-01-01T00:00");
    assert_eq!(m.last_used, "2024-12-24T20:00");
    assert_eq!(m.use_count, 33);
}

#[test]
fn mistyped_entries_fall_back_to_defaults() {
    let mut map = StringHashMap::new();
    // A track ID that is a plain string, not an object path.
    map.insert("mpris:trackid".to_string(), string_value("/not/a/path/value"));
    // A length that is a 32-bit integer, not a 64-bit one.
    map.insert("mpris:length".to_string(), MetaValue { int32: Some(5), ..empty_value() });
    map.insert("xesam:title".to_string(), MetaValue { int64: Some(3), ..empty_value() });
    map.insert("xesam:artist".to_string(), string_value("Solo"));
    map.insert("xesam:trackNumber".to_string(), MetaValue { int64: Some(4), ..empty_value() });
    map.insert("xesam:userRating".to_string(), MetaValue { int64: Some(1), ..empty_value() });
    let m = Metadata::new_from_hashmap(map);
    assert_eq!(m.trackid.into_inner(), NO_TRACK);
    assert_eq!(m.length, None);
    assert_eq!(m.title, "");
    assert!(m.artists.is_empty());
    assert_eq!(m.track_number, 0);
    assert_eq!(m.user_rating, 0);
}

#[test]
fn negative_length_wraps_as_unsigned() {
    let mut map = StringHashMap::new();
    map.insert("mpris:length".to_string(), MetaValue { int64: Some(-1), ..empty_value() });
    let m = Metadata::new_from_hashmap(map);
    assert_eq!(m.length, Some(u64::MAX));
}

#[test]
fn unread_keys_are_ignored() {
    let mut map = StringHashMap::new();
    map.insert("xesam:title".to_string(), string_value("Song"));
    let plain = Metadata::new_from_hashmap(map);

    let mut map = StringHashMap::new();
    map.insert("xesam:title".to_string(), string_value("Song"));
    map.insert("mpris:url".to_string(), string_value("file:///elsewhere"));
    map.insert("custom:thing".to_string(), MetaValue { int32: Some(7), ..empty_value() });
    let with_extra = Metadata::new_from_hashmap(map);
    assert_eq!(plain, with_extra);
    // The location is read from "xesam:url" only.
    assert_eq!(with_extra.url, "");
}

#[test]
fn art_url_absent_is_none() {
    let mut map = StringHashMap::new();
    map.insert("xesam:album".to_string(), string_value("A"));
    let m = Metadata::new_from_hashmap(map);
    assert_eq!(m.art_url, None);
    assert_eq!(m.album, "A");
}

#[test]
fn track_id_round_trip() {
    let id = TrackId::from("/org/mpris/MediaPlayer2/Track/12".to_string());
    assert_eq!(id.into_inner(), "/org/mpris/MediaPlayer2/Track/12");
    assert_eq!(TrackId::no_track().into_inner(), NO_TRACK);
}

#[test]
fn url_is_read_from_xesam_url() {
    let mut map = StringHashMap::new();
    map.insert("xesam:url".to_string(), string_value("file:///music/a.mp3"));
    let m = Metadata::new_from_hashmap(map);
    assert_eq!(m.url, "file:///music/a.mp3");
}

#[test]
fn bpm_reads_32_and_64_bit_integers() {
    let mut map = StringHashMap::new();
    map.insert("xesam:audioBPM".to_string(), MetaValue { int32: Some(120), ..empty_value() });
    assert_eq!(Metadata::new_from_hashmap(map).bpm, 120);

    let mut map = StringHashMap::new();
    map.insert("xesam:audioBPM".to_string(), MetaValue { int64: Some(92), ..empty_value() });
    assert_eq!(Metadata::new_from_hashmap(map).bpm, 92);

    let mut map = StringHashMap::new();
    map.insert("xesam:audioBPM".to_string(), string_value("fast"));
    assert_eq!(Metadata::new_from_hashmap(map).bpm, 0);
}

#[test]
fn track_id_derefs_to_its_path() {
    let id = TrackId::from("/a/b".to_string());
    assert_eq!(id.as_str(), "/a/b");
    assert_eq!(id.len(), 4);
}
