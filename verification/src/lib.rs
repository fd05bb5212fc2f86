//! Decryption of NCM music containers: cipher primitives, the container
//! parser, the audio keystream and the tags of the audio file, and beside
//! them the requests and answers of the Netease Cloud Music web API.

pub mod cipher;
pub mod convert;
pub mod decoder;
pub mod error;
pub mod json;
pub mod metadata;
pub mod netease;
pub mod reader;
pub mod tag;
pub mod text;

pub use cipher::{aes128_ecb_decrypt, rc4_ksa, rc4_stream_byte, AudioStream};
pub use convert::{convert, Converted};
pub use decoder::{AudioFormat, NcmFile};
pub use error::{ErrorKind, IoFailure, NcmError};
pub use json::{Json, JsonNumber};
pub use metadata::NcmMetadata;
pub use reader::ByteReader;
pub use tag::{choose_tag_slot, tag_values, CoverArt, CoverMime, TagSlot, TagValues};
