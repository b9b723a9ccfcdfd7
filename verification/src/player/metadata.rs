//! Metadata of the track a player is playing.
use vstd::prelude::*;

use vstd::hash_map::StringHashMap;

verus! {

/// The object path that MPRIS reserves for "no track".
pub open spec fn no_track_path() -> Seq<char> {
    "/org/mpris/MediaPlayer2/TrackList/NoTrack"@
}

/// The identity of a track within one player: a D-Bus object path.
#[derive(Debug, Clone, PartialEq, Eq, Hash)]
pub struct TrackId(pub String);

impl View for TrackId {
    type V = Seq<char>;

    open spec fn view(&self) -> Seq<char> {
        self.0@
    }
}

impl TrackId {
    /// The special track ID that stands for "no track".
    pub fn no_track() -> (r: TrackId)
        ensures
            r@ == no_track_path(),
    {
        TrackId("/org/mpris/MediaPlayer2/TrackList/NoTrack".to_owned())
    }

    /// The track ID's object path.
    pub fn into_inner(self) -> (r: String)
        ensures
            r@ == self@,
    {
        self.0
    }
}

impl std::ops::Deref for TrackId {
    type Target = String;

    /// The track ID's object path.
    fn deref(&self) -> (r: &String)
        ensures
            r@ == self@,
    {
        &self.0
    }
}

impl From<String> for TrackId {
    /// The track ID with the given object path.
    fn from(path: String) -> (r: TrackId) {
        TrackId(path)
    }
}

impl vstd::std_specs::convert::FromSpecImpl<String> for TrackId {
    open spec fn obeys_from_spec() -> bool {
        true
    }

    open spec fn from_spec(path: String) -> TrackId {
        TrackId(path)
    }
}

/// A value of a metadata map, a D-Bus variant, given by what each typed
/// read of it yields: `None` where the value cannot be read as that type.
#[derive(Debug, Clone, PartialEq)]
pub struct MetaValue {
    /// The value read as a string.
    pub string: Option<String>,
    /// The value read as an object path.
    pub object_path: Option<String>,
    /// The value read as a signed 64-bit integer.
    pub int64: Option<i64>,
    /// The value read as a signed 32-bit integer.
    pub int32: Option<i32>,
    /// The value read as a double, given by its IEEE 754 bit pattern.
    pub double_bits: Option<u64>,
    /// The value read as a list of strings.
    pub string_list: Option<Vec<String>>,
}

/// Metadata of a track, built from the MPRIS metadata map.
///
/// Nothing but the track ID is promised to be provided; an absent or
/// mistyped entry leaves its field at the default.
#[derive(Debug, Clone, PartialEq)]
pub struct Metadata {
    /// The identity of the track within the player.
    pub trackid: TrackId,
    /// The length of the track, in microseconds.
    pub length: Option<u64>,
    /// The location of the track's cover art.
    pub art_url: Option<String>,
    /// The album name.
    pub album: String,
    /// The artists.
    pub artists: Vec<String>,
    /// The album's artists.
    pub album_artist: Vec<String>,
    /// The title.
    pub title: String,
    /// The lyrics (`xesam:asText`).
    pub lyrics: String,
    /// Beats per minute, read as a 64-bit or a 32-bit integer.
    pub bpm: i64,
    /// An automatic rating in 0.0 ..= 1.0, as its IEEE 754 bit pattern.
    pub auto_rating: u64,
    /// The user's rating in 0.0 ..= 1.0, as its IEEE 754 bit pattern.
    pub user_rating: u64,
    /// Comments.
    pub comments: Vec<String>,
    /// The composers.
    pub composers: Vec<String>,
    /// The disc number on the album.
    pub disc_number: i32,
    /// The track number on the disc.
    pub track_number: i32,
    /// The location of the media.
    pub url: String,
    /// The genres.
    pub genres: Vec<String>,
    /// The lyricists.
    pub lyricists: Vec<String>,
    /// When the media was created (ISO 8601).
    pub created: String,
    /// When the media was first played (ISO 8601).
    pub first_used: String,
    /// When the media was last played (ISO 8601).
    pub last_used: String,
    /// How many times the track has been played.
    pub use_count: i32,
}

/// The abstract value of a [`Metadata`].
pub struct MetadataView {
    pub trackid: Seq<char>,
    pub length: Option<u64>,
    pub art_url: Option<Seq<char>>,
    pub album: Seq<char>,
    pub artists: Seq<Seq<char>>,
    pub album_artist: Seq<Seq<char>>,
    pub title: Seq<char>,
    pub lyrics: Seq<char>,
    pub bpm: i64,
    pub auto_rating: u64,
    pub user_rating: u64,
    pub comments: Seq<Seq<char>>,
    pub composers: Seq<Seq<char>>,
    pub disc_number: i32,
    pub track_number: i32,
    pub url: Seq<char>,
    pub genres: Seq<Seq<char>>,
    pub lyricists: Seq<Seq<char>>,
    pub created: Seq<char>,
    pub first_used: Seq<char>,
    pub last_used: Seq<char>,
    pub use_count: i32,
}

impl View for Metadata {
    type V = MetadataView;

    open spec fn view(&self) -> MetadataView {
        MetadataView {
            trackid: self.trackid@,
            length: self.length,
            art_url: match self.art_url {
                Some(s) => Some(s@),
                None => None,
            },
            album: self.album@,
            artists: self.artists.deep_view(),
            album_artist: self.album_artist.deep_view(),
            title: self.title@,
            lyrics: self.lyrics@,
            bpm: self.bpm,
            auto_rating: self.auto_rating,
            user_rating: self.user_rating,
            comments: self.comments.deep_view(),
            composers: self.composers.deep_view(),
            disc_number: self.disc_number,
            track_number: self.track_number,
            url: self.url@,
            genres: self.genres.deep_view(),
            lyricists: self.lyricists.deep_view(),
            created: self.created@,
            first_used: self.first_used@,
            last_used: self.last_used@,
            use_count: self.use_count,
        }
    }
}

/// The string stored under `key`, or the empty string where the key is
/// absent or its value is not a string.
pub open spec fn string_entry(map: Map<Seq<char>, MetaValue>, key: Seq<char>) -> Seq<char> {
    if map.contains_key(key) && map[key].string is Some {
        map[key].string->0@
    } else {
        Seq::empty()
    }
}

/// The list of strings stored under `key`, or the empty list where the key
/// is absent or its value is not a list of strings.
pub open spec fn string_list_entry(map: Map<Seq<char>, MetaValue>, key: Seq<char>) -> Seq<
    Seq<char>,
> {
    if map.contains_key(key) && map[key].string_list is Some {
        map[key].string_list->0.deep_view()
    } else {
        Seq::empty()
    }
}

/// The integer stored under `key`, read as a 64-bit integer or else as a
/// 32-bit one, or 0.
pub open spec fn integer_entry(map: Map<Seq<char>, MetaValue>, key: Seq<char>) -> i64 {
    if map.contains_key(key) && map[key].int64 is Some {
        map[key].int64->0
    } else if map.contains_key(key) && map[key].int32 is Some {
        map[key].int32->0 as i64
    } else {
        0
    }
}

/// The 32-bit integer stored under `key`, or 0.
pub open spec fn int32_entry(map: Map<Seq<char>, MetaValue>, key: Seq<char>) -> i32 {
    if map.contains_key(key) && map[key].int32 is Some {
        map[key].int32->0
    } else {
        0
    }
}

/// The bit pattern of the double stored under `key`, or that of 0.0 (which
/// is 0).
pub open spec fn double_entry(map: Map<Seq<char>, MetaValue>, key: Seq<char>) -> u64 {
    if map.contains_key(key) && map[key].double_bits is Some {
        map[key].double_bits->0
    } else {
        0
    }
}

/// The track ID of a metadata map: the object path under `mpris:trackid`,
/// or the "no track" path where there is none.
pub open spec fn trackid_entry(map: Map<Seq<char>, MetaValue>) -> Seq<char> {
    let key = "mpris:trackid"@;
    if map.contains_key(key) && map[key].object_path is Some {
        map[key].object_path->0@
    } else {
        no_track_path()
    }
}

/// The length of a metadata map in microseconds: the integer under
/// `mpris:length` taken as unsigned (wrapping as a cast does), if it is one.
pub open spec fn length_entry(map: Map<Seq<char>, MetaValue>) -> Option<u64> {
    let key = "mpris:length"@;
    if map.contains_key(key) && map[key].int64 is Some {
        Some(map[key].int64->0 as u64)
    } else {
        None
    }
}

/// The art URL of a metadata map: the string under `mpris:artUrl`, if the
/// key is present.
pub open spec fn art_url_entry(map: Map<Seq<char>, MetaValue>) -> Option<Seq<char>> {
    let key = "mpris:artUrl"@;
    if map.contains_key(key) {
        Some(string_entry(map, key))
    } else {
        None
    }
}

/// What a metadata map holds, entry by entry.
pub open spec fn metadata_of(map: Map<Seq<char>, MetaValue>) -> MetadataView {
    MetadataView {
        trackid: trackid_entry(map),
        length: length_entry(map),
        art_url: art_url_entry(map),
        album: string_entry(map, "xesam:album"@),
        artists: string_list_entry(map, "xesam:artist"@),
        album_artist: string_list_entry(map, "xesam:albumArtist"@),
        title: string_entry(map, "xesam:title"@),
        lyrics: string_entry(map, "xesam:asText"@),
        bpm: integer_entry(map, "xesam:audioBPM"@),
        auto_rating: double_entry(map, "xesam:autoRating"@),
        user_rating: double_entry(map, "xesam:userRating"@),
        comments: string_list_entry(map, "xesam:comment"@),
        composers: string_list_entry(map, "xesam:composer"@),
        disc_number: int32_entry(map, "xesam:discNumber"@),
        track_number: int32_entry(map, "xesam:trackNumber"@),
        url: string_entry(map, "xesam:url"@),
        genres: string_list_entry(map, "xesam:genre"@),
        lyricists: string_list_entry(map, "xesam:lyricist"@),
        created: string_entry(map, "xesam:contentCreated"@),
        first_used: string_entry(map, "xesam:firstUsed"@),
        last_used: string_entry(map, "xesam:lastUsed"@),
        use_count: int32_entry(map, "xesam:useCount"@),
    }
}

/// A metadata map that the parser accepts: an `mpris:artUrl` entry, where
/// there is one, reads as a string.
pub open spec fn art_url_readable(map: Map<Seq<char>, MetaValue>) -> bool {
    map.contains_key("mpris:artUrl"@) ==> map["mpris:artUrl"@].string is Some
}

fn read_string(map: &StringHashMap<MetaValue>, key: &str) -> (r: String)
    ensures
        r@ == string_entry(map@, key@),
{
    match map.get(key) {
        Some(value) => match &value.string {
            Some(s) => s.clone(),
            None => String::new(),
        },
        None => String::new(),
    }
}

fn clone_strings(v: &Vec<String>) -> (r: Vec<String>)
    ensures
        r.deep_view() == v.deep_view(),
{
    let mut r: Vec<String> = Vec::new();
    let mut i: usize = 0;
    while i < v.len()
        invariant
            i <= v.len(),
            r.len() == i,
            forall|j: int| 0 <= j < i ==> #[trigger] r@[j]@ == v@[j]@,
        decreases v.len() - i,
    {
        r.push(v[i].clone());
        i = i + 1;
    }
    assert(r.deep_view() =~= v.deep_view());
    r
}

fn read_string_list(map: &StringHashMap<MetaValue>, key: &str) -> (r: Vec<String>)
    ensures
        r.deep_view() == string_list_entry(map@, key@),
{
    match map.get(key) {
        Some(value) => match &value.string_list {
            Some(list) => clone_strings(list),
            None => Vec::new(),
        },
        None => Vec::new(),
    }
}

fn read_integer(map: &StringHashMap<MetaValue>, key: &str) -> (r: i64)
    ensures
        r == integer_entry(map@, key@),
{
    match map.get(key) {
        Some(value) => match value.int64 {
            Some(n) => n,
            None => match value.int32 {
                Some(n) => n as i64,
                None => 0,
            },
        },
        None => 0,
    }
}

fn read_int32(map: &StringHashMap<MetaValue>, key: &str) -> (r: i32)
    ensures
        r == int32_entry(map@, key@),
{
    match map.get(key) {
        Some(value) => match value.int32 {
            Some(n) => n,
            None => 0,
        },
        None => 0,
    }
}

fn read_double(map: &StringHashMap<MetaValue>, key: &str) -> (r: u64)
    ensures
        r == double_entry(map@, key@),
{
    match map.get(key) {
        Some(value) => match value.double_bits {
            Some(n) => n,
            None => 0,
        },
        None => 0,
    }
}

impl Metadata {
    /// Builds the metadata from an MPRIS metadata map.
    ///
    /// Each field is read from its key; an absent entry, or one that does
    /// not read as the field's type, leaves the field at its default. The
    /// track ID falls back to the "no track" path.
    pub fn new_from_hashmap(map: StringHashMap<MetaValue>) -> (r: Self)
        requires
            art_url_readable(map@),
        ensures
            r@ == metadata_of(map@),
    {
        let trackid = match map.get("mpris:trackid") {
            Some(id) => match &id.object_path {
                Some(path) => TrackId(path.clone()),
                None => TrackId::no_track(),
            },
            None => TrackId::no_track(),
        };
        let length = match map.get("mpris:length") {
            Some(value) => match value.int64 {
                Some(d) => Some(d as u64),
                None => None,
            },
            None => None,
        };
        let art_url = match map.get("mpris:artUrl") {
            Some(value) => match &value.string {
                Some(s) => Some(s.clone()),
                None => None,
            },
            None => None,
        };
        Metadata {
            trackid,
            length,
            art_url,
            album: read_string(&map, "xesam:album"),
            album_artist: read_string_list(&map, "xesam:albumArtist"),
            artists: read_string_list(&map, "xesam:artist"),
            comments: read_string_list(&map, "xesam:comment"),
            lyricists: read_string_list(&map, "xesam:lyricist"),
            composers: read_string_list(&map, "xesam:composer"),
            genres: read_string_list(&map, "xesam:genre"),
            lyrics: read_string(&map, "xesam:asText"),
            url: read_string(&map, "xesam:url"),
            title: read_string(&map, "xesam:title"),
            auto_rating: read_double(&map, "xesam:autoRating"),
            user_rating: read_double(&map, "xesam:userRating"),
            bpm: read_integer(&map, "xesam:audioBPM"),
            disc_number: read_int32(&map, "xesam:discNumber"),
            track_number: read_int32(&map, "xesam:trackNumber"),
            use_count: read_int32(&map, "xesam:useCount"),
            created: read_string(&map, "xesam:contentCreated"),
            first_used: read_string(&map, "xesam:firstUsed"),
            last_used: read_string(&map, "xesam:lastUsed"),
        }
    }
}

/// The keys of a metadata map that the parser reads.
pub open spec fn metadata_keys() -> Set<Seq<char>> {
    set![
        "mpris:trackid"@,
        "mpris:length"@,
        "mpris:artUrl"@,
        "xesam:album"@,
        "xesam:albumArtist"@,
        "xesam:artist"@,
        "xesam:comment"@,
        "xesam:lyricist"@,
        "xesam:composer"@,
        "xesam:genre"@,
        "xesam:asText"@,
        "xesam:url"@,
        "xesam:title"@,
        "xesam:autoRating"@,
        "xesam:userRating"@,
        "xesam:audioBPM"@,
        "xesam:discNumber"@,
        "xesam:trackNumber"@,
        "xesam:useCount"@,
        "xesam:contentCreated"@,
        "xesam:firstUsed"@,
        "xesam:lastUsed"@,
    ]
}

/// An empty metadata map gives the "no track" ID and every other field at
/// its default: nothing but the track ID is provided.
pub proof fn lemma_empty_map_gives_defaults()
    ensures
        metadata_of(Map::empty()) == (MetadataView {
            trackid: no_track_path(),
            length: None,
            art_url: None,
            album: Seq::empty(),
            artists: Seq::empty(),
            album_artist: Seq::empty(),
            title: Seq::empty(),
            lyrics: Seq::empty(),
            bpm: 0,
            auto_rating: 0,
            user_rating: 0,
            comments: Seq::empty(),
            composers: Seq::empty(),
            disc_number: 0,
            track_number: 0,
            url: Seq::empty(),
            genres: Seq::empty(),
            lyricists: Seq::empty(),
            created: Seq::empty(),
            first_used: Seq::empty(),
            last_used: Seq::empty(),
            use_count: 0,
        }),
{
}

/// Entries under keys the parser does not read change nothing.
pub proof fn lemma_other_keys_ignored(map: Map<Seq<char>, MetaValue>, key: Seq<char>, value: MetaValue)
    requires
        !metadata_keys().contains(key),
    ensures
        metadata_of(map.insert(key, value)) == metadata_of(map),
        art_url_readable(map.insert(key, value)) == art_url_readable(map),
{
    let m2 = map.insert(key, value);
    assert forall|k: Seq<char>| #[trigger] metadata_keys().contains(k) implies (m2.contains_key(k)
        == map.contains_key(k) && (map.contains_key(k) ==> m2[k] == map[k])) by {
        assert(k != key);
    }
    assert(metadata_keys().contains("mpris:trackid"@));
    assert(metadata_keys().contains("mpris:length"@));
    assert(metadata_keys().contains("mpris:artUrl"@));
    assert(metadata_keys().contains("xesam:album"@));
    assert(metadata_keys().contains("xesam:albumArtist"@));
    assert(metadata_keys().contains("xesam:artist"@));
    assert(metadata_keys().contains("xesam:comment"@));
    assert(metadata_keys().contains("xesam:lyricist"@));
    assert(metadata_keys().contains("xesam:composer"@));
    assert(metadata_keys().contains("xesam:genre"@));
    assert(metadata_keys().contains("xesam:asText"@));
    assert(metadata_keys().contains("xesam:url"@));
    assert(metadata_keys().contains("xesam:title"@));
    assert(metadata_keys().contains("xesam:autoRating"@));
    assert(metadata_keys().contains("xesam:userRating"@));
    assert(metadata_keys().contains("xesam:audioBPM"@));
    assert(metadata_keys().contains("xesam:discNumber"@));
    assert(metadata_keys().contains("xesam:trackNumber"@));
    assert(metadata_keys().contains("xesam:useCount"@));
    assert(metadata_keys().contains("xesam:contentCreated"@));
    assert(metadata_keys().contains("xesam:firstUsed"@));
    assert(metadata_keys().contains("xesam:lastUsed"@));
}

/// `field` is the whole list of strings `map` stores under `key`: same
/// length and the same entries in order.
pub open spec fn is_whole_list(
    field: Seq<Seq<char>>,
    map: Map<Seq<char>, MetaValue>,
    key: Seq<char>,
) -> bool {
    let l = map[key].string_list->0@;
    &&& field.len() == l.len()
    &&& forall|i: int| 0 <= i < l.len() ==> #[trigger] field[i] == l[i]@
}

/// Every list field holds the whole list of strings stored under its key.
pub proof fn lemma_list_fields_whole(map: Map<Seq<char>, MetaValue>)
    ensures
        ({
            let m = metadata_of(map);
            let k1 = "xesam:artist"@;
            let k2 = "xesam:albumArtist"@;
            let k3 = "xesam:comment"@;
            let k4 = "xesam:composer"@;
            let k5 = "xesam:genre"@;
            let k6 = "xesam:lyricist"@;
            &&& map.contains_key(k1) && map[k1].string_list is Some ==> is_whole_list(m.artists, map, k1)
            &&& map.contains_key(k2) && map[k2].string_list is Some ==> is_whole_list(m.album_artist, map, k2)
            &&& map.contains_key(k3) && map[k3].string_list is Some ==> is_whole_list(m.comments, map, k3)
            &&& map.contains_key(k4) && map[k4].string_list is Some ==> is_whole_list(m.composers, map, k4)
            &&& map.contains_key(k5) && map[k5].string_list is Some ==> is_whole_list(m.genres, map, k5)
            &&& map.contains_key(k6) && map[k6].string_list is Some ==> is_whole_list(m.lyricists, map, k6)
        }),
{
}

/// Each field of a present entry of the right type is that entry's value
/// itself: the text of a string, the path of the track ID, the integers and
/// the bit patterns as stored, the length taken as unsigned.
pub proof fn lemma_present_fields_read(map: Map<Seq<char>, MetaValue>)
    ensures
        ({
            let m = metadata_of(map);
            let has_string = |k: Seq<char>| map.contains_key(k) && map[k].string is Some;
            let text = |k: Seq<char>| map[k].string->0@;
            &&& has_string("xesam:album"@) ==> m.album == text("xesam:album"@)
            &&& has_string("xesam:title"@) ==> m.title == text("xesam:title"@)
            &&& has_string("xesam:asText"@) ==> m.lyrics == text("xesam:asText"@)
            &&& has_string("xesam:url"@) ==> m.url == text("xesam:url"@)
            &&& has_string("xesam:contentCreated"@) ==> m.created == text("xesam:contentCreated"@)
            &&& has_string("xesam:firstUsed"@) ==> m.first_used == text("xesam:firstUsed"@)
            &&& has_string("xesam:lastUsed"@) ==> m.last_used == text("xesam:lastUsed"@)
            &&& has_string("mpris:artUrl"@) ==> m.art_url == Some(text("mpris:artUrl"@))
            &&& !map.contains_key("mpris:artUrl"@) ==> m.art_url is None
            &&& map.contains_key("mpris:trackid"@) && map["mpris:trackid"@].object_path is Some
                ==> m.trackid == map["mpris:trackid"@].object_path->0@
            &&& map.contains_key("mpris:length"@) && map["mpris:length"@].int64 is Some ==> {
                let d = map["mpris:length"@].int64->0;
                &&& m.length is Some
                &&& d >= 0 ==> m.length->0 as int == d as int
            }
            &&& map.contains_key("xesam:audioBPM"@) && map["xesam:audioBPM"@].int64 is Some
                ==> m.bpm == map["xesam:audioBPM"@].int64->0
            &&& map.contains_key("xesam:audioBPM"@) && map["xesam:audioBPM"@].int64 is None
                && map["xesam:audioBPM"@].int32 is Some ==> m.bpm as int
                == map["xesam:audioBPM"@].int32->0 as int
            &&& map.contains_key("xesam:discNumber"@) && map["xesam:discNumber"@].int32 is Some
                ==> m.disc_number == map["xesam:discNumber"@].int32->0
            &&& map.contains_key("xesam:trackNumber"@) && map["xesam:trackNumber"@].int32 is Some
                ==> m.track_number == map["xesam:trackNumber"@].int32->0
            &&& map.contains_key("xesam:useCount"@) && map["xesam:useCount"@].int32 is Some
                ==> m.use_count == map["xesam:useCount"@].int32->0
            &&& map.contains_key("xesam:autoRating"@) && map["xesam:autoRating"@].double_bits is Some
                ==> m.auto_rating == map["xesam:autoRating"@].double_bits->0
            &&& map.contains_key("xesam:userRating"@) && map["xesam:userRating"@].double_bits is Some
                ==> m.user_rating == map["xesam:userRating"@].double_bits->0
        }),
{
    let key = "mpris:length"@;
    if map.contains_key(key) && map[key].int64 is Some {
        let d = map[key].int64->0;
        assert(d >= 0 ==> (d as u64) as int == d as int) by (bit_vector);
    }
}

} // verus!
