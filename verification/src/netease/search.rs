//! Search.

use crate::json::{
    array_of, child, json_members, json_values, member, u64_or_zero, Json, JsonNumber, JsonValue,
};
use crate::netease::client::ApiRequest;
use crate::netease::playlist::{creator_of, parse_creator};
use crate::netease::track::{
    album_of, artists_of, parse_album, parse_artist_items, parse_track_album, parse_track_artists,
    track_album, track_artists,
};
use crate::netease::types::{
    album_views, artist_views, playlist_views, track_views, Album, AlbumView, Artist, ArtistView,
    Playlist, PlaylistView, SearchResult, SearchResultView, SearchType, Track, TrackView,
};
use vstd::prelude::*;
use vstd::string::StringExecFns;

verus! {

/// The track that an element of a search answer describes. Its duration is
/// the integer under `dt`, or else 0.
pub open spec fn found_track_of(v: JsonValue) -> TrackView {
    TrackView {
        id: v.u64_field("id"@),
        name: v.text_field("name"@),
        artists: track_artists(v),
        album: track_album(v),
        duration_ms: v.u64_field("dt"@),
    }
}

/// The playlist that an element of a search answer describes. It lists no
/// tracks.
pub open spec fn found_playlist_of(v: JsonValue) -> PlaylistView {
    PlaylistView {
        id: v.u64_field("id"@),
        name: v.text_field("name"@),
        description: v.str_field("description"@),
        cover_url: v.str_field("coverImgUrl"@),
        track_count: v.u64_field("trackCount"@),
        creator: creator_of(v.field("creator"@)),
        tracks: None,
    }
}

/// The tracks of a search answer; none where there is no array.
pub open spec fn found_tracks(items: Option<Seq<JsonValue>>) -> Seq<TrackView> {
    match items {
        Some(items) => Seq::new(items.len(), |i: int| found_track_of(items[i])),
        None => Seq::empty(),
    }
}

/// The albums of a search answer; none where there is no array.
pub open spec fn found_albums(items: Option<Seq<JsonValue>>) -> Seq<AlbumView> {
    match items {
        Some(items) => Seq::new(items.len(), |i: int| album_of(items[i])),
        None => Seq::empty(),
    }
}

/// The artists of a search answer; none where there is no array.
pub open spec fn found_artists(items: Option<Seq<JsonValue>>) -> Seq<ArtistView> {
    match items {
        Some(items) => artists_of(items),
        None => Seq::empty(),
    }
}

/// The playlists of a search answer; none where there is no array.
pub open spec fn found_playlists(items: Option<Seq<JsonValue>>) -> Seq<PlaylistView> {
    match items {
        Some(items) => Seq::new(items.len(), |i: int| found_playlist_of(items[i])),
        None => Seq::empty(),
    }
}

/// The values of the elements of an array, where there is one.
pub open spec fn item_values(arr: Option<&Vec<Json>>) -> Option<Seq<JsonValue>> {
    match arr {
        Some(items) => Some(json_values(items@)),
        None => None,
    }
}

/// Reads the tracks of a search answer.
pub fn parse_tracks(arr: Option<&Vec<Json>>) -> (tracks: Vec<Track>)
    ensures
        track_views(tracks@) == found_tracks(item_values(arr)),
{
    let mut tracks: Vec<Track> = Vec::new();
    let items = match arr {
        Some(items) => items,
        None => {
            assert(track_views(tracks@) =~= Seq::<TrackView>::empty());
            return tracks;
        },
    };
    let mut i: usize = 0;
    while i < items.len()
        invariant
            i <= items@.len(),
            tracks@.len() == i,
            forall|k: int| 0 <= k < i ==> (#[trigger] tracks@[k])@ == found_track_of(items@[k]@),
        decreases items@.len() - i,
    {
        let v = &items[i];
        tracks.push(
            Track {
                id: v.u64_field("id"),
                name: v.text_field("name"),
                artists: parse_track_artists(v),
                album: parse_track_album(v),
                duration_ms: v.u64_field("dt"),
            },
        );
        i += 1;
    }
    assert(track_views(tracks@) =~= found_tracks(item_values(arr)));
    tracks
}

/// Reads the albums of a search answer.
pub fn parse_albums(arr: Option<&Vec<Json>>) -> (albums: Vec<Album>)
    ensures
        album_views(albums@) == found_albums(item_values(arr)),
{
    let mut albums: Vec<Album> = Vec::new();
    let items = match arr {
        Some(items) => items,
        None => {
            assert(album_views(albums@) =~= Seq::<AlbumView>::empty());
            return albums;
        },
    };
    let mut i: usize = 0;
    while i < items.len()
        invariant
            i <= items@.len(),
            albums@.len() == i,
            forall|k: int| 0 <= k < i ==> (#[trigger] albums@[k])@ == album_of(items@[k]@),
        decreases items@.len() - i,
    {
        albums.push(parse_album(Some(&items[i])));
        i += 1;
    }
    assert(album_views(albums@) =~= found_albums(item_values(arr)));
    albums
}

/// Reads the artists of a search answer.
pub fn parse_artists(arr: Option<&Vec<Json>>) -> (artists: Vec<Artist>)
    ensures
        artist_views(artists@) == found_artists(item_values(arr)),
{
    match arr {
        Some(items) => parse_artist_items(items),
        None => {
            let artists: Vec<Artist> = Vec::new();
            assert(artist_views(artists@) =~= Seq::<ArtistView>::empty());
            artists
        },
    }
}

/// Reads the playlists of a search answer.
pub fn parse_playlists(arr: Option<&Vec<Json>>) -> (playlists: Vec<Playlist>)
    ensures
        playlist_views(playlists@) == found_playlists(item_values(arr)),
{
    let mut playlists: Vec<Playlist> = Vec::new();
    let items = match arr {
        Some(items) => items,
        None => {
            assert(playlist_views(playlists@) =~= Seq::<PlaylistView>::empty());
            return playlists;
        },
    };
    let mut i: usize = 0;
    while i < items.len()
        invariant
            i <= items@.len(),
            playlists@.len() == i,
            forall|k: int|
                0 <= k < i ==> (#[trigger] playlists@[k])@ == found_playlist_of(items@[k]@),
        decreases items@.len() - i,
    {
        let v = &items[i];
        playlists.push(
            Playlist {
                id: v.u64_field("id"),
                name: v.text_field("name"),
                description: v.str_field("description"),
                cover_url: v.str_field("coverImgUrl"),
                track_count: v.u64_field("trackCount"),
                creator: parse_creator(v.get("creator")),
                tracks: None,
            },
        );
        i += 1;
    }
    assert(playlist_views(playlists@) =~= found_playlists(item_values(arr)));
    playlists
}

/// What asks for a search: at `/cloudsearch/get/web`, the keyword under
/// `s`, the number of the search type under `type`, and the page under
/// `limit` and `offset`.
pub fn search_request(
    keyword: &str,
    search_type: SearchType,
    limit: u64,
    offset: u64,
) -> (req: ApiRequest)
    ensures
        req.endpoint@ == "/cloudsearch/get/web"@,
        req.data@ == JsonValue::Object(
            seq![
                ("s"@, JsonValue::String(keyword@)),
                ("type"@, JsonValue::Number(JsonNumber::PosInt(search_type.spec_code()))),
                ("limit"@, JsonValue::Number(JsonNumber::PosInt(limit))),
                ("offset"@, JsonValue::Number(JsonNumber::PosInt(offset))),
            ],
        ),
{
    let members = vec![
        member("s", Json::text(keyword)),
        member("type", Json::unsigned(search_type.code())),
        member("limit", Json::unsigned(limit)),
        member("offset", Json::unsigned(offset)),
    ];
    assert(json_members(members@) =~= seq![
        ("s"@, JsonValue::String(keyword@)),
        ("type"@, JsonValue::Number(JsonNumber::PosInt(search_type.spec_code()))),
        ("limit"@, JsonValue::Number(JsonNumber::PosInt(limit))),
        ("offset"@, JsonValue::Number(JsonNumber::PosInt(offset))),
    ]);
    ApiRequest { endpoint: String::from_str("/cloudsearch/get/web"), data: Json::object(members) }
}

/// The page that a search answer holds. Of the four lists the one of the
/// search type is there, read from `result`: the tracks from `songs` with
/// `songCount` as the total, the albums from `albums` with `albumCount`,
/// the artists from `artists` with `artistCount`, the playlists from
/// `playlists` with `playlistCount`.
pub open spec fn search_result_of(
    resp: JsonValue,
    search_type: SearchType,
    limit: u64,
    offset: u64,
) -> SearchResultView {
    let result = resp.field("result"@);
    match search_type {
        SearchType::Track => SearchResultView {
            total: result.u64_field("songCount"@),
            offset,
            limit,
            tracks: Some(found_tracks(result.field("songs"@).as_array())),
            albums: None,
            playlists: None,
            artists: None,
        },
        SearchType::Album => SearchResultView {
            total: result.u64_field("albumCount"@),
            offset,
            limit,
            tracks: None,
            albums: Some(found_albums(result.field("albums"@).as_array())),
            playlists: None,
            artists: None,
        },
        SearchType::Artist => SearchResultView {
            total: result.u64_field("artistCount"@),
            offset,
            limit,
            tracks: None,
            albums: None,
            playlists: None,
            artists: Some(found_artists(result.field("artists"@).as_array())),
        },
        SearchType::Playlist => SearchResultView {
            total: result.u64_field("playlistCount"@),
            offset,
            limit,
            tracks: None,
            albums: None,
            playlists: Some(found_playlists(result.field("playlists"@).as_array())),
            artists: None,
        },
    }
}

/// Of the four lists of a page exactly one is there: that of the search
/// type.
pub proof fn lemma_search_fills_one_list(
    resp: JsonValue,
    search_type: SearchType,
    limit: u64,
    offset: u64,
)
    ensures
        ({
            let page = search_result_of(resp, search_type, limit, offset);
            &&& page.tracks is Some <==> search_type == SearchType::Track
            &&& page.albums is Some <==> search_type == SearchType::Album
            &&& page.artists is Some <==> search_type == SearchType::Artist
            &&& page.playlists is Some <==> search_type == SearchType::Playlist
            &&& page.limit == limit
            &&& page.offset == offset
        }),
{
}

/// The page that a search answer holds.
pub fn search_response(
    resp: &Json,
    search_type: SearchType,
    limit: u64,
    offset: u64,
) -> (sr: SearchResult)
    ensures
        sr@ == search_result_of(resp@, search_type, limit, offset),
{
    let result = resp.get("result");
    let mut sr = SearchResult {
        total: 0,
        offset,
        limit,
        tracks: None,
        albums: None,
        playlists: None,
        artists: None,
    };
    match search_type {
        SearchType::Track => {
            sr.total = u64_or_zero(child(result, "songCount"));
            sr.tracks = Some(parse_tracks(array_of(child(result, "songs"))));
        },
        SearchType::Album => {
            sr.total = u64_or_zero(child(result, "albumCount"));
            sr.albums = Some(parse_albums(array_of(child(result, "albums"))));
        },
        SearchType::Artist => {
            sr.total = u64_or_zero(child(result, "artistCount"));
            sr.artists = Some(parse_artists(array_of(child(result, "artists"))));
        },
        SearchType::Playlist => {
            sr.total = u64_or_zero(child(result, "playlistCount"));
            sr.playlists = Some(parse_playlists(array_of(child(result, "playlists"))));
        },
    }
    sr
}

} // verus!
