//! What a request to the API looks like, and what its answer must pass.
//!
//! A request is a form posted to `https://music.163.com/weapi` and the
//! endpoint, with the encrypted request data in its two fields. The answer
//! is a JSON object whose `code` is 200 where the request went well.

use crate::json::{Json, JsonValue, json_text};
use crate::netease::auth::{cookie_prefix, Session};
use crate::netease::crypto::{
    fits_weapi, is_key_byte, params_spec, random_key, rsa_spec, weapi_encrypt_with_key,
    WeapiPayload,
};
use crate::netease::error::NeteaseError;
use vstd::prelude::*;
use vstd::string::StringExecFns;
use vstd::utf8::encode_utf8;

verus! {

/// Where the API lives.
pub const BASE_URL: &'static str = "https://music.163.com";

/// The `User-Agent` that requests carry.
pub const USER_AGENT: &'static str =
    "Mozilla/5.0 (Macintosh; Intel Mac OS X 10_15_7) AppleWebKit/537.36 (KHTML, like Gecko) Chrome/124.0.0.0 Safari/537.36";

/// The `Referer` that requests carry.
pub const REFERER: &'static str = "https://music.163.com";

/// The `Content-Type` that requests carry.
pub const CONTENT_TYPE: &'static str = "application/x-www-form-urlencoded";

/// What one call of the API asks: the endpoint, which is the path behind
/// `/weapi`, and the request data.
#[derive(Debug)]
pub struct ApiRequest {
    pub endpoint: String,
    pub data: Json,
}

/// A request, ready to be posted.
#[derive(Debug)]
pub struct PreparedRequest {
    pub url: String,
    /// The value of the `Cookie` header, where the session has a cookie.
    pub cookie: Option<String>,
    /// The form: `params` and `encSecKey`.
    pub body: String,
}

/// Whether a byte stands for itself in a form: the letters, the digits and
/// `-`, `.`, `_`, `~`.
pub open spec fn is_unreserved(b: u8) -> bool {
    ||| 0x30 <= b <= 0x39
    ||| 0x41 <= b <= 0x5A
    ||| 0x61 <= b <= 0x7A
    ||| b == 0x2D
    ||| b == 0x2E
    ||| b == 0x5F
    ||| b == 0x7E
}

/// The hex digit of a number below 16, in upper case.
pub open spec fn upper_hex_char(digit: nat) -> char {
    if digit < 10 {
        (0x30 + digit) as char
    } else {
        (0x37 + digit) as char
    }
}

/// One byte in a form: itself, or `%` and its two hex digits.
pub open spec fn percent_encode_byte(b: u8) -> Seq<char> {
    if is_unreserved(b) {
        seq![b as char]
    } else {
        seq!['%', upper_hex_char((b / 16) as nat), upper_hex_char((b % 16) as nat)]
    }
}

/// Bytes in a form, each percent-encoded.
pub open spec fn percent_encode(bytes: Seq<u8>) -> Seq<char>
    decreases bytes.len(),
{
    if bytes.len() == 0 {
        Seq::empty()
    } else {
        percent_encode(bytes.drop_last()) + percent_encode_byte(bytes.last())
    }
}

/// `urlencoding::encode`: every byte of the text percent-encoded, but for
/// the letters, the digits and `-`, `.`, `_`, `~`.
#[verifier::external_body]
fn url_encode(text: &str) -> (encoded: String)
    ensures
        encoded@ == percent_encode(encode_utf8(text@)),
{
    urlencoding::encode(text).into_owned()
}

/// The address of an endpoint.
pub open spec fn request_url_spec(endpoint: Seq<char>) -> Seq<char> {
    BASE_URL@ + "/weapi"@ + endpoint
}

/// The address of an endpoint: the base, `/weapi`, and the endpoint.
pub fn request_url(endpoint: &str) -> (url: String)
    ensures
        url@ == request_url_spec(endpoint@),
{
    let mut url = String::from_str(BASE_URL);
    url.append("/weapi");
    url.append(endpoint);
    url
}

/// The form that carries a payload.
pub open spec fn form_body_spec(params: Seq<char>, enc_sec_key: Seq<char>) -> Seq<char> {
    "params="@ + percent_encode(encode_utf8(params)) + "&encSecKey="@ + enc_sec_key
}

/// The form that carries a payload: `params`, percent-encoded, and
/// `encSecKey` as it is.
pub fn form_body(payload: &WeapiPayload) -> (body: String)
    ensures
        body@ == form_body_spec(payload.params@, payload.enc_sec_key@),
{
    let mut body = String::from_str("params=");
    let encoded = url_encode(payload.params.as_str());
    body.append(encoded.as_str());
    body.append("&encSecKey=");
    body.append(payload.enc_sec_key.as_str());
    body
}

/// Whether a request text of `n` bytes can be encrypted on this machine.
pub fn can_encrypt(n: usize) -> (b: bool)
    ensures
        b == fits_weapi(n as nat),
{
    let n: u128 = n as u128;
    let c1: u128 = n + 16 - n % 16;
    let t1: u128 = 4 * ((c1 + 2) / 3);
    let c2: u128 = t1 + 16 - t1 % 16;
    let t2: u128 = 4 * ((c2 + 2) / 3);
    t2 <= usize::MAX as u128
}

/// The request for `data` at `endpoint`, encrypted under `secret_key`.
pub fn prepare_request_with_key(
    session: &Session,
    endpoint: &str,
    data: &Json,
    secret_key: &[u8; 16],
) -> (r: Option<PreparedRequest>)
    ensures
        match r {
            Some(req) => {
                &&& fits_weapi(encode_utf8(json_text(data@)).len())
                &&& req.url@ == request_url_spec(endpoint@)
                &&& match session.music_u {
                    Some(music_u) => req.cookie matches Some(c) && c@ == cookie_prefix()
                        + music_u@,
                    None => req.cookie is None,
                }
                &&& req.body@ == form_body_spec(
                    params_spec(json_text(data@), secret_key@),
                    rsa_spec(secret_key@),
                )
            },
            None => !fits_weapi(encode_utf8(json_text(data@)).len()),
        },
{
    let text = data.to_text();
    if !can_encrypt(text.as_str().as_bytes().len()) {
        return None;
    }
    let payload = weapi_encrypt_with_key(text.as_str(), secret_key);
    Some(
        PreparedRequest {
            url: request_url(endpoint),
            cookie: session.cookie_header(),
            body: form_body(&payload),
        },
    )
}

/// The request for `data` at `endpoint`, encrypted under a fresh random key.
/// `None` where the request text is too long to encrypt on this machine.
pub fn prepare_request(
    session: &Session,
    endpoint: &str,
    data: &Json,
) -> (r: Option<PreparedRequest>)
    ensures
        match r {
            Some(req) => {
                &&& fits_weapi(encode_utf8(json_text(data@)).len())
                &&& req.url@ == request_url_spec(endpoint@)
                &&& match session.music_u {
                    Some(music_u) => req.cookie matches Some(c) && c@ == cookie_prefix()
                        + music_u@,
                    None => req.cookie is None,
                }
                &&& exists|key: Seq<u8>|
                    {
                        &&& key.len() == 16
                        &&& forall|i: int| 0 <= i < 16 ==> is_key_byte(#[trigger] key[i])
                        &&& req.body@ == form_body_spec(
                            #[trigger] params_spec(json_text(data@), key),
                            rsa_spec(key),
                        )
                    }
            },
            None => !fits_weapi(encode_utf8(json_text(data@)).len()),
        },
{
    let secret_key = random_key(16);
    prepare_request_with_key(session, endpoint, data, &secret_key)
}

/// The message of an answer that failed: the string under `message`, or
/// where there is no such member the one under `msg`.
pub open spec fn failure_message(v: JsonValue) -> Seq<char> {
    let found = match v.member("message"@) {
        Some(m) => Some(m),
        None => v.member("msg"@),
    };
    match found {
        Some(m) => match m.as_str() {
            Some(s) => s,
            None => "unknown error"@,
        },
        None => "unknown error"@,
    }
}

/// The code and the message of an answer that failed: one whose `code` is
/// an integer other than 200.
pub open spec fn api_failure(v: JsonValue) -> Option<(i64, Seq<char>)> {
    match v.field("code"@).as_i64() {
        Some(code) => if code != 200 {
            Some((code, failure_message(v)))
        } else {
            None
        },
        None => None,
    }
}

/// Passes an answer on where it went well, and turns one that failed into
/// an `Api` error with its code and message.
pub fn check_response(json: Json) -> (res: Result<Json, NeteaseError>)
    ensures
        match api_failure(json@) {
            Some((code, message)) => res matches Err(NeteaseError::Api { code: c, message: m })
                && c == code && m@ == message,
            None => res matches Ok(j) && j == json,
        },
{
    let code: i64 = match json.get("code") {
        Some(c) => match c.as_i64() {
            Some(code) => code,
            None => return Ok(json),
        },
        None => return Ok(json),
    };
    if code == 200 {
        return Ok(json);
    }
    let found = match json.get("message") {
        Some(m) => Some(m),
        None => json.get("msg"),
    };
    let message = match found {
        Some(m) => match m.as_str() {
            Some(s) => s.to_owned(),
            None => String::from_str("unknown error"),
        },
        None => String::from_str("unknown error"),
    };
    Err(NeteaseError::Api { code, message })
}

/// Reads an answer from the bytes of its body.
pub fn read_response(body: &[u8]) -> (res: Result<Json, NeteaseError>)
    ensures
        match crate::json::json_document(body@) {
            Some(v) => match api_failure(v) {
                Some((code, message)) => res matches Err(
                    NeteaseError::Api { code: c, message: m },
                ) && c == code && m@ == message,
                None => res matches Ok(j) && j@ == v,
            },
            None => res matches Err(NeteaseError::Json(_)),
        },
{
    match Json::from_text(body) {
        Ok(json) => check_response(json),
        Err(e) => Err(NeteaseError::Json(e)),
    }
}

} // verus!
