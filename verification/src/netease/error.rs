//! What can go wrong between a request and a record.

use crate::error::json_error_text;
use crate::text::{signed_decimal_digits, signed_decimal_text, starts_with};
use vstd::prelude::*;
use vstd::string::StringExecFns;

verus! {

/// The errors of the API.
#[derive(Debug)]
pub enum NeteaseError {
    /// The answer carries a `code` other than 200.
    Api {
        /// The API's status code: 301 for a login that is missing or has
        /// run out, 403 for access denied, -460 for too many requests.
        code: i64,
        /// The API's message.
        message: String,
    },
    /// No cookie is set.
    NotLoggedIn,
    /// The answer is not JSON.
    Json(serde_json::Error),
    /// The answer lacks what was asked for.
    Other(String),
}

impl NeteaseError {
    /// The message of this error. Of an error from `serde_json` it ends in
    /// what the crate says of it.
    pub fn message(&self) -> (text: String)
        ensures
            match self {
                NeteaseError::Api { code, message } => text@ == "API error (code "@
                    + signed_decimal_digits(*code as int) + "): "@ + message@,
                NeteaseError::NotLoggedIn => text@ == "not logged in"@,
                NeteaseError::Json(_) => starts_with(text@, "JSON error: "@),
                NeteaseError::Other(detail) => text@ == detail@,
            },
    {
        match self {
            NeteaseError::Api { code, message } => {
                let mut text = String::from_str("API error (code ");
                text.append(signed_decimal_text(*code).as_str());
                text.append("): ");
                text.append(message.as_str());
                text
            },
            NeteaseError::NotLoggedIn => String::from_str("not logged in"),
            NeteaseError::Json(e) => {
                let mut text = String::from_str("JSON error: ");
                let detail = json_error_text(e);
                text.append(detail.as_str());
                assert(text@.take("JSON error: "@.len() as int) =~= "JSON error: "@);
                text
            },
            NeteaseError::Other(detail) => detail.clone(),
        }
    }
}

} // verus!
