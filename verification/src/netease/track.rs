//! Track detail, playback URL and lyrics.

use crate::json::{
    array_of, child, is_null, item, json_members, json_values, member, text_of, u64_or_zero, Json,
    JsonNumber, JsonValue,
};
use crate::netease::client::ApiRequest;
use crate::netease::error::NeteaseError;
use crate::text::{
    contains_run, decimal_digits, decimal_text, has_run, two_digit_text, two_digits,
};
use crate::netease::types::{
    artist_views, Album, AlbumView, Artist, ArtistView, Lyric, LyricView, Quality, Track,
    TrackView,
};
use vstd::prelude::*;
use vstd::string::StringExecFns;
use vstd::utf8::encode_utf8;

verus! {

/// The artist that a JSON value describes: `id` and `name`, each with its
/// default where it is missing.
pub open spec fn artist_of(v: JsonValue) -> ArtistView {
    ArtistView { id: v.u64_field("id"@), name: v.text_field("name"@) }
}

/// The artists that the elements of an array describe.
pub open spec fn artists_of(items: Seq<JsonValue>) -> Seq<ArtistView> {
    Seq::new(items.len(), |i: int| artist_of(items[i]))
}

/// The album that a JSON value describes: `id`, `name` and `picUrl`.
pub open spec fn album_of(v: JsonValue) -> AlbumView {
    AlbumView { id: v.u64_field("id"@), name: v.text_field("name"@), pic_url: v.str_field("picUrl"@) }
}

/// The artists of a track: the array under `ar`, or else the one under
/// `artists`, or else none.
pub open spec fn track_artists(v: JsonValue) -> Seq<ArtistView> {
    match v.field("ar"@).as_array() {
        Some(items) => artists_of(items),
        None => match v.field("artists"@).as_array() {
            Some(items) => artists_of(items),
            None => Seq::empty(),
        },
    }
}

/// The album of a track: what stands under `al`, or under `album` where
/// `al` is missing or null.
pub open spec fn track_album(v: JsonValue) -> AlbumView {
    if v.field("al"@) is Null {
        album_of(v.field("album"@))
    } else {
        album_of(v.field("al"@))
    }
}

/// The track that a JSON value describes. Its duration is the integer under
/// `dt`, or else the one under `duration`, or else 0.
pub open spec fn track_of(v: JsonValue) -> TrackView {
    TrackView {
        id: v.u64_field("id"@),
        name: v.text_field("name"@),
        artists: track_artists(v),
        album: track_album(v),
        duration_ms: match v.field("dt"@).as_u64() {
            Some(n) => n,
            None => v.u64_field("duration"@),
        },
    }
}

/// Reads an artist.
pub fn parse_artist(v: &Json) -> (artist: Artist)
    ensures
        artist@ == artist_of(v@),
{
    Artist { id: v.u64_field("id"), name: v.text_field("name") }
}

/// Reads the artists of an array.
pub fn parse_artist_items(items: &Vec<Json>) -> (artists: Vec<Artist>)
    ensures
        artist_views(artists@) == artists_of(json_values(items@)),
{
    let mut artists: Vec<Artist> = Vec::new();
    let mut i: usize = 0;
    while i < items.len()
        invariant
            i <= items@.len(),
            artists@.len() == i,
            forall|k: int| 0 <= k < i ==> (#[trigger] artists@[k])@ == artist_of(items@[k]@),
        decreases items@.len() - i,
    {
        artists.push(parse_artist(&items[i]));
        i += 1;
    }
    assert(artist_views(artists@) =~= artists_of(json_values(items@)));
    artists
}

/// Reads an album from what a lookup found.
pub fn parse_album(found: Option<&Json>) -> (album: Album)
    ensures
        album@ == album_of(crate::json::value_of(found)),
{
    Album {
        id: u64_or_zero(child(found, "id")),
        name: match text_of(child(found, "name")) {
            Some(s) => s,
            None => String::new(),
        },
        pic_url: text_of(child(found, "picUrl")),
    }
}

/// Reads the artists of a track.
pub fn parse_track_artists(v: &Json) -> (artists: Vec<Artist>)
    ensures
        artist_views(artists@) == track_artists(v@),
{
    match array_of(v.get("ar")) {
        Some(items) => parse_artist_items(items),
        None => match array_of(v.get("artists")) {
            Some(items) => parse_artist_items(items),
            None => {
                let artists: Vec<Artist> = Vec::new();
                assert(artist_views(artists@) =~= Seq::<ArtistView>::empty());
                artists
            },
        },
    }
}

/// Reads the album of a track.
pub fn parse_track_album(v: &Json) -> (album: Album)
    ensures
        album@ == track_album(v@),
{
    if is_null(v.get("al")) {
        parse_album(v.get("album"))
    } else {
        parse_album(v.get("al"))
    }
}

/// Reads a track.
pub fn parse_track(v: &Json) -> (track: Track)
    ensures
        track@ == track_of(v@),
{
    let duration_ms: u64 = match v.get("dt") {
        Some(dt) => match dt.as_u64() {
            Some(n) => n,
            None => v.u64_field("duration"),
        },
        None => v.u64_field("duration"),
    };
    Track {
        id: v.u64_field("id"),
        name: v.text_field("name"),
        artists: parse_track_artists(v),
        album: parse_track_album(v),
        duration_ms,
    }
}

/// The text `[N]` for a track id `N`.
pub open spec fn id_list(id: u64) -> Seq<char> {
    "["@ + decimal_digits(id as nat) + "]"@
}

/// The text `[{"id":N}]` for a track id `N`.
pub open spec fn id_object_list(id: u64) -> Seq<char> {
    "[{\"id\":"@ + decimal_digits(id as nat) + "}]"@
}

/// The text `[N]` for a track id `N`.
fn id_list_text(id: u64) -> (text: String)
    ensures
        text@ == id_list(id),
{
    let mut text = String::from_str("[");
    text.append(decimal_text(id).as_str());
    text.append("]");
    text
}

/// What asks for the detail of a track: at `/song/detail`, the id as
/// `[{"id":N}]` under `c` and as `[N]` under `ids`.
pub fn track_detail_request(id: u64) -> (req: ApiRequest)
    ensures
        req.endpoint@ == "/song/detail"@,
        req.data@ == JsonValue::Object(
            seq![
                ("c"@, JsonValue::String(id_object_list(id))),
                ("ids"@, JsonValue::String(id_list(id))),
            ],
        ),
{
    let mut c = String::from_str("[{\"id\":");
    c.append(decimal_text(id).as_str());
    c.append("}]");
    let members = vec![member("c", Json::String(c)), member("ids", Json::String(id_list_text(id)))];
    assert(json_members(members@) =~= seq![
        ("c"@, JsonValue::String(id_object_list(id))),
        ("ids"@, JsonValue::String(id_list(id))),
    ]);
    ApiRequest { endpoint: String::from_str("/song/detail"), data: Json::object(members) }
}

/// The message for a track that the answer does not hold.
pub open spec fn not_found_message(id: u64) -> Seq<char> {
    "track not found: "@ + decimal_digits(id as nat)
}

/// The track of a detail answer: the first element of `songs`. Without an
/// array under `songs` the error says `missing songs`; with an empty one it
/// names the track that was not found.
pub fn track_detail_response(resp: &Json, id: u64) -> (res: Result<Track, NeteaseError>)
    ensures
        match resp@.field("songs"@).as_array() {
            Some(songs) => if songs.len() > 0 {
                res matches Ok(track) && track@ == track_of(songs[0])
            } else {
                res matches Err(NeteaseError::Other(m)) && m@ == not_found_message(id)
            },
            None => res matches Err(NeteaseError::Other(m)) && m@ == "missing songs"@,
        },
{
    let songs = match array_of(resp.get("songs")) {
        Some(songs) => songs,
        None => return Err(NeteaseError::Other(String::from_str("missing songs"))),
    };
    if songs.len() == 0 {
        let mut message = String::from_str("track not found: ");
        message.append(decimal_text(id).as_str());
        return Err(NeteaseError::Other(message));
    }
    Ok(parse_track(&songs[0]))
}

/// What asks for the playback URL of a track: at
/// `/song/enhance/player/url`, the id as `[N]` under `ids` and the bitrate
/// of the quality under `br`.
pub fn track_url_request(id: u64, quality: Quality) -> (req: ApiRequest)
    ensures
        req.endpoint@ == "/song/enhance/player/url"@,
        req.data@ == JsonValue::Object(
            seq![
                ("ids"@, JsonValue::String(id_list(id))),
                ("br"@, JsonValue::Number(JsonNumber::PosInt(quality.spec_bitrate()))),
            ],
        ),
{
    let members = vec![
        member("ids", Json::String(id_list_text(id))),
        member("br", Json::unsigned(quality.bitrate())),
    ];
    assert(json_members(members@) =~= seq![
        ("ids"@, JsonValue::String(id_list(id))),
        ("br"@, JsonValue::Number(JsonNumber::PosInt(quality.spec_bitrate()))),
    ]);
    ApiRequest {
        endpoint: String::from_str("/song/enhance/player/url"),
        data: Json::object(members),
    }
}

/// The URL of a playback answer: the string under `url` in the first
/// element of `data`. Where there is none, the track is not to be had.
pub fn track_url_response(resp: &Json) -> (res: Result<String, NeteaseError>)
    ensures
        match resp@.field("data"@).item(0).field("url"@).as_str() {
            Some(url) => res matches Ok(u) && u@ == url,
            None => res matches Err(NeteaseError::Other(m)) && m@
                == "track unavailable (no copyright or VIP required)"@,
        },
{
    match text_of(child(item(resp.get("data"), 0), "url")) {
        Some(url) => Ok(url),
        None => Err(
            NeteaseError::Other(
                String::from_str("track unavailable (no copyright or VIP required)"),
            ),
        ),
    }
}

/// What asks for the lyrics of a track: at `/song/lyric`, the id under
/// `id`, and -1 under `lv` and `tv`.
pub fn track_lyric_request(id: u64) -> (req: ApiRequest)
    ensures
        req.endpoint@ == "/song/lyric"@,
        req.data@ == JsonValue::Object(
            seq![
                ("id"@, JsonValue::Number(JsonNumber::PosInt(id))),
                ("lv"@, JsonValue::Number(JsonNumber::NegInt(-1i64))),
                ("tv"@, JsonValue::Number(JsonNumber::NegInt(-1i64))),
            ],
        ),
{
    let members = vec![
        member("id", Json::unsigned(id)),
        member("lv", Json::signed(-1)),
        member("tv", Json::signed(-1)),
    ];
    assert(json_members(members@) =~= seq![
        ("id"@, JsonValue::Number(JsonNumber::PosInt(id))),
        ("lv"@, JsonValue::Number(JsonNumber::NegInt(-1i64))),
        ("tv"@, JsonValue::Number(JsonNumber::NegInt(-1i64))),
    ]);
    ApiRequest { endpoint: String::from_str("/song/lyric"), data: Json::object(members) }
}

/// The lyrics of a lyric answer.
pub open spec fn lyric_of(resp: JsonValue) -> LyricView {
    LyricView {
        lrc: resp.field("lrc"@).str_field("lyric"@),
        tlyric: resp.field("tlyric"@).str_field("lyric"@),
    }
}

/// The lyrics of a lyric answer: the strings under `lyric` in `lrc` and in
/// `tlyric`, each where there is one.
pub fn track_lyric_response(resp: &Json) -> (lyric: Lyric)
    ensures
        lyric@ == lyric_of(resp@),
{
    Lyric {
        lrc: text_of(child(resp.get("lrc"), "lyric")),
        tlyric: text_of(child(resp.get("tlyric"), "lyric")),
    }
}

/// The extension of a download: `flac` where the URL has `.flac` in it,
/// else `mp3`.
pub open spec fn download_extension_spec(url: Seq<char>) -> Seq<char> {
    if has_run(encode_utf8(url), encode_utf8(".flac"@)) {
        "flac"@
    } else {
        "mp3"@
    }
}

/// The extension of a download, told by its URL.
pub fn download_extension(url: &str) -> (ext: &'static str)
    ensures
        ext@ == download_extension_spec(url@),
{
    if contains_run(url.as_bytes(), ".flac".as_bytes()) {
        "flac"
    } else {
        "mp3"
    }
}

/// The name of the file that a track is downloaded to where none is given:
/// the id of the track, a dot, and the extension that the URL shows.
pub fn download_file_name(track_id: u64, url: &str) -> (name: String)
    ensures
        name@ == decimal_digits(track_id as nat) + "."@ + download_extension_spec(url@),
{
    let mut name = decimal_text(track_id);
    name.append(".");
    name.append(download_extension(url));
    name
}

/// A duration as minutes and seconds: the minutes, a colon, and the seconds
/// in two digits. What is left of a second is dropped.
pub open spec fn duration_text_spec(duration_ms: u64) -> Seq<char> {
    decimal_digits((duration_ms / 60000) as nat) + ":"@ + two_digits(
        ((duration_ms / 1000) % 60) as nat,
    )
}

/// A duration in milliseconds as minutes and seconds.
pub fn duration_text(duration_ms: u64) -> (text: String)
    ensures
        text@ == duration_text_spec(duration_ms),
{
    let mut text = decimal_text(duration_ms / 60000);
    text.append(":");
    text.append(two_digit_text((duration_ms / 1000) % 60).as_str());
    text
}

} // verus!
