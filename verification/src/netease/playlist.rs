//! Playlist detail.

use crate::json::{
    array_of, child, is_null, json_members, json_values, member, text_of, u64_or_zero, value_of,
    Json, JsonNumber, JsonValue,
};
use crate::netease::client::ApiRequest;
use crate::netease::track::{parse_track, track_of};
use crate::netease::types::{
    track_views, Playlist, PlaylistView, Track, TrackView, UserBrief, UserBriefView,
};
use vstd::prelude::*;
use vstd::string::StringExecFns;

verus! {

/// How many tracks a detail request asks for: as good as all.
pub const ALL_TRACKS: u64 = 100_000;

/// The creator that a JSON value describes: none for null, else `userId`
/// and `nickname`, each with its default where it is missing.
pub open spec fn creator_of(v: JsonValue) -> Option<UserBriefView> {
    if v is Null {
        None
    } else {
        Some(UserBriefView { id: v.u64_field("userId"@), name: v.text_field("nickname"@) })
    }
}

/// The tracks that the elements of an array describe.
pub open spec fn tracks_of(items: Seq<JsonValue>) -> Seq<TrackView> {
    Seq::new(items.len(), |i: int| track_of(items[i]))
}

/// The playlist of a detail answer: what stands under `playlist`, with the
/// tracks where `tracks` is an array.
pub open spec fn playlist_of(resp: JsonValue) -> PlaylistView {
    let p = resp.field("playlist"@);
    PlaylistView {
        id: p.u64_field("id"@),
        name: p.text_field("name"@),
        description: p.str_field("description"@),
        cover_url: p.str_field("coverImgUrl"@),
        track_count: p.u64_field("trackCount"@),
        creator: creator_of(p.field("creator"@)),
        tracks: match p.field("tracks"@).as_array() {
            Some(items) => Some(tracks_of(items)),
            None => None,
        },
    }
}

/// Reads the creator of a playlist from what a lookup found.
pub fn parse_creator(found: Option<&Json>) -> (creator: Option<UserBrief>)
    ensures
        match creator {
            Some(c) => creator_of(value_of(found)) == Some(c@),
            None => creator_of(value_of(found)) is None,
        },
{
    if is_null(found) {
        return None;
    }
    Some(
        UserBrief {
            id: u64_or_zero(child(found, "userId")),
            name: match text_of(child(found, "nickname")) {
                Some(s) => s,
                None => String::new(),
            },
        },
    )
}

/// Reads the tracks of an array.
pub fn parse_track_items(items: &Vec<Json>) -> (tracks: Vec<Track>)
    ensures
        track_views(tracks@) == tracks_of(json_values(items@)),
{
    let mut tracks: Vec<Track> = Vec::new();
    let mut i: usize = 0;
    while i < items.len()
        invariant
            i <= items@.len(),
            tracks@.len() == i,
            forall|k: int| 0 <= k < i ==> (#[trigger] tracks@[k])@ == track_of(items@[k]@),
        decreases items@.len() - i,
    {
        tracks.push(parse_track(&items[i]));
        i += 1;
    }
    assert(track_views(tracks@) =~= tracks_of(json_values(items@)));
    tracks
}

/// What asks for a playlist with its tracks: at `/v6/playlist/detail`, the
/// id under `id` and the number of tracks wanted under `n`.
pub fn playlist_detail_request(id: u64) -> (req: ApiRequest)
    ensures
        req.endpoint@ == "/v6/playlist/detail"@,
        req.data@ == JsonValue::Object(
            seq![
                ("id"@, JsonValue::Number(JsonNumber::PosInt(id))),
                ("n"@, JsonValue::Number(JsonNumber::PosInt(ALL_TRACKS))),
            ],
        ),
{
    let members = vec![member("id", Json::unsigned(id)), member("n", Json::unsigned(ALL_TRACKS))];
    assert(json_members(members@) =~= seq![
        ("id"@, JsonValue::Number(JsonNumber::PosInt(id))),
        ("n"@, JsonValue::Number(JsonNumber::PosInt(ALL_TRACKS))),
    ]);
    ApiRequest { endpoint: String::from_str("/v6/playlist/detail"), data: Json::object(members) }
}

/// The playlist of a detail answer.
pub fn playlist_detail_response(resp: &Json) -> (playlist: Playlist)
    ensures
        playlist@ == playlist_of(resp@),
{
    let p = resp.get("playlist");
    Playlist {
        id: u64_or_zero(child(p, "id")),
        name: match text_of(child(p, "name")) {
            Some(s) => s,
            None => String::new(),
        },
        description: text_of(child(p, "description")),
        cover_url: text_of(child(p, "coverImgUrl")),
        track_count: u64_or_zero(child(p, "trackCount")),
        creator: parse_creator(child(p, "creator")),
        tracks: match array_of(child(p, "tracks")) {
            Some(items) => Some(parse_track_items(items)),
            None => None,
        },
    }
}

} // verus!
