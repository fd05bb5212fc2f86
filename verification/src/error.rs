//! The one error type of the decryptor.

use crate::text::starts_with;
use vstd::prelude::*;
use vstd::string::StringExecFns;

verus! {

/// The error that `base64` reports for text that is not valid base64.
#[verifier::external_type_specification]
#[verifier::external_body]
pub struct ExDecodeError(base64::DecodeError);

/// The error that `serde_json` reports for text that is not valid JSON.
#[verifier::external_type_specification]
#[verifier::external_body]
pub struct ExJsonError(serde_json::Error);

/// Why a read or a seek on a byte source failed.
#[derive(Debug, Clone, Copy, PartialEq, Eq, Structural)]
pub enum IoFailure {
    /// Fewer bytes were left than the read asked for.
    UnexpectedEof,
    /// The seek would have left the range of 64-bit positions.
    InvalidSeek,
}

impl IoFailure {
    /// What the failure is called in a message.
    pub open spec fn spec_text(self) -> Seq<char> {
        match self {
            IoFailure::UnexpectedEof => "failed to fill whole buffer"@,
            IoFailure::InvalidSeek => "invalid seek to a negative or overflowing position"@,
        }
    }

    /// What the failure is called in a message.
    pub fn text(self) -> (text: &'static str)
        ensures
            text@ == self.spec_text(),
    {
        match self {
            IoFailure::UnexpectedEof => "failed to fill whole buffer",
            IoFailure::InvalidSeek => "invalid seek to a negative or overflowing position",
        }
    }
}

/// `to_string` of a `base64::DecodeError`: what `base64` says of the error.
#[verifier::external_body]
fn decode_error_text(e: &base64::DecodeError) -> String {
    e.to_string()
}

/// `to_string` of a `serde_json::Error`: what `serde_json` says of the
/// error.
#[verifier::external_body]
pub(crate) fn json_error_text(e: &serde_json::Error) -> String {
    e.to_string()
}

/// The kind of an [`NcmError`], without what it carries.
#[derive(Debug, Clone, Copy, PartialEq, Eq, Structural)]
pub enum ErrorKind {
    InvalidMagic,
    Io,
    Decrypt,
    Base64,
    Json,
    UnsupportedFormat,
    Tag,
}

/// Everything that can go wrong between an NCM file and a tagged audio file.
#[derive(Debug)]
pub enum NcmError {
    /// The first eight bytes are not `CTENFDAM`.
    InvalidMagic,
    /// A short read or a seek out of range.
    Io(IoFailure),
    /// AES unpadding failed, or the unwrapped key holds no key bytes.
    Decrypt(String),
    /// The metadata is not valid base64.
    Base64(base64::DecodeError),
    /// The decrypted metadata is not the JSON of a metadata record.
    Json(serde_json::Error),
    /// Kept for formats to come.
    UnsupportedFormat,
    /// The tag writer failed; the audio written before stays intact.
    Tag(String),
}

impl NcmError {
    /// The kind of this error.
    pub open spec fn spec_kind(&self) -> ErrorKind {
        match self {
            NcmError::InvalidMagic => ErrorKind::InvalidMagic,
            NcmError::Io(_) => ErrorKind::Io,
            NcmError::Decrypt(_) => ErrorKind::Decrypt,
            NcmError::Base64(_) => ErrorKind::Base64,
            NcmError::Json(_) => ErrorKind::Json,
            NcmError::UnsupportedFormat => ErrorKind::UnsupportedFormat,
            NcmError::Tag(_) => ErrorKind::Tag,
        }
    }

    /// The message of this error: what went wrong, and behind a colon what
    /// the error carries. Of an error from `base64` or `serde_json` that is
    /// what the crate says of it.
    pub fn message(&self) -> (text: String)
        ensures
            match self {
                NcmError::InvalidMagic => text@ == "not a valid NCM file (bad magic)"@,
                NcmError::Io(failure) => text@ == "I/O error: "@ + failure.spec_text(),
                NcmError::Decrypt(detail) => text@ == "decryption failed: "@ + detail@,
                NcmError::Base64(_) => starts_with(text@, "base64 decode error: "@),
                NcmError::Json(_) => starts_with(text@, "JSON parse error: "@),
                NcmError::UnsupportedFormat => text@ == "unsupported audio format"@,
                NcmError::Tag(detail) => text@ == "tagging error: "@ + detail@,
            },
    {
        match self {
            NcmError::InvalidMagic => String::from_str("not a valid NCM file (bad magic)"),
            NcmError::Io(failure) => {
                let mut text = String::from_str("I/O error: ");
                text.append(failure.text());
                text
            },
            NcmError::Decrypt(detail) => {
                let mut text = String::from_str("decryption failed: ");
                text.append(detail.as_str());
                text
            },
            NcmError::Base64(e) => {
                let mut text = String::from_str("base64 decode error: ");
                let detail = decode_error_text(e);
                text.append(detail.as_str());
                assert(text@.take("base64 decode error: "@.len() as int)
                    =~= "base64 decode error: "@);
                text
            },
            NcmError::Json(e) => {
                let mut text = String::from_str("JSON parse error: ");
                let detail = json_error_text(e);
                text.append(detail.as_str());
                assert(text@.take("JSON parse error: "@.len() as int) =~= "JSON parse error: "@);
                text
            },
            NcmError::UnsupportedFormat => String::from_str("unsupported audio format"),
            NcmError::Tag(detail) => {
                let mut text = String::from_str("tagging error: ");
                text.append(detail.as_str());
                text
            },
        }
    }

    /// The kind of this error.
    #[verifier::when_used_as_spec(spec_kind)]
    pub fn kind(&self) -> (k: ErrorKind)
        ensures
            k == self.spec_kind(),
    {
        match self {
            NcmError::InvalidMagic => ErrorKind::InvalidMagic,
            NcmError::Io(_) => ErrorKind::Io,
            NcmError::Decrypt(_) => ErrorKind::Decrypt,
            NcmError::Base64(_) => ErrorKind::Base64,
            NcmError::Json(_) => ErrorKind::Json,
            NcmError::UnsupportedFormat => ErrorKind::UnsupportedFormat,
            NcmError::Tag(_) => ErrorKind::Tag,
        }
    }
}

} // verus!
