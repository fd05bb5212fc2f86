//! The profile of the user who is logged in.

use crate::json::{child, json_members, text_of, u64_or_zero, Json, JsonValue};
use crate::netease::auth::Session;
use crate::netease::client::ApiRequest;
use crate::netease::error::NeteaseError;
use crate::netease::types::{UserProfile, UserProfileView};
use vstd::prelude::*;
use vstd::string::StringExecFns;

verus! {

/// The profile of a profile answer: what stands under `profile`.
pub open spec fn profile_of(resp: JsonValue) -> UserProfileView {
    let p = resp.field("profile"@);
    UserProfileView {
        id: p.u64_field("userId"@),
        nickname: p.text_field("nickname"@),
        avatar_url: p.str_field("avatarUrl"@),
    }
}

/// What asks for the profile: at `/nuser/account/get`, an empty object.
/// Without a cookie that is not empty nothing is asked: the error is
/// `NotLoggedIn`.
pub fn user_info_request(session: &Session) -> (res: Result<ApiRequest, NeteaseError>)
    ensures
        match res {
            Ok(req) => {
                &&& session.music_u matches Some(music_u) && music_u@.len() > 0
                &&& req.endpoint@ == "/nuser/account/get"@
                &&& req.data@ == JsonValue::Object(Seq::empty())
            },
            Err(e) => {
                &&& !(session.music_u matches Some(music_u) && music_u@.len() > 0)
                &&& e is NotLoggedIn
            },
        },
{
    if !session.is_logged_in() {
        return Err(NeteaseError::NotLoggedIn);
    }
    let members: Vec<(String, Json)> = Vec::new();
    assert(json_members(members@) =~= Seq::empty());
    Ok(ApiRequest { endpoint: String::from_str("/nuser/account/get"), data: Json::object(members) })
}

/// The profile of a profile answer.
pub fn user_info_response(resp: &Json) -> (profile: UserProfile)
    ensures
        profile@ == profile_of(resp@),
{
    let p = resp.get("profile");
    UserProfile {
        id: u64_or_zero(child(p, "userId")),
        nickname: match text_of(child(p, "nickname")) {
            Some(s) => s,
            None => String::new(),
        },
        avatar_url: text_of(child(p, "avatarUrl")),
    }
}

} // verus!
