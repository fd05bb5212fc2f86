//! From the bytes of an NCM file to the audio file that they hold.

use crate::decoder::{parse_spec, AudioFormat, NcmFile, Step};
use crate::error::NcmError;
use crate::metadata::artist_names_spec;
use crate::reader::ByteReader;
use crate::tag::{cover_mime_spec, tag_values, TagValues};
use crate::text::{ends_in, ends_with_run};
use vstd::prelude::*;
use vstd::string::StringExecFns;
use vstd::utf8::encode_utf8;

verus! {

/// A converted file: the parsed container, the name and the bytes of the
/// audio file, and the tags to write into it where the container has
/// metadata.
pub struct Converted {
    pub file: NcmFile,
    pub file_name: String,
    pub audio: Vec<u8>,
    pub tags: Option<TagValues>,
}

/// Whether a file of this name is taken for an NCM file: the name ends in
/// `.ncm`, behind a stem that is not empty.
pub open spec fn is_ncm_file_name_spec(name: Seq<char>) -> bool {
    encode_utf8(name).len() > 4 && ends_in(encode_utf8(name), encode_utf8(".ncm"@))
}

/// Whether a file of this name is taken for an NCM file.
pub fn is_ncm_file_name(name: &str) -> (b: bool)
    ensures
        b == is_ncm_file_name_spec(name@),
{
    let bytes = name.as_bytes();
    bytes.len() > 4 && ends_with_run(bytes, ".ncm".as_bytes())
}

/// The name of the audio file: the stem of the input, a dot, and the
/// extension of the format.
pub open spec fn output_name_spec(stem: Seq<char>, format: AudioFormat) -> Seq<char> {
    stem + "."@ + format.spec_extension()
}

/// The name of the audio file for an input called `stem`.
pub fn output_name(stem: &str, format: AudioFormat) -> (name: String)
    ensures
        name@ == output_name_spec(stem@, format),
{
    let mut name = String::from_str(stem);
    name.append(".");
    name.append(format.extension());
    name
}

/// Converts the NCM file with the bytes `data`, whose name without its
/// extension is `stem`.
///
/// It fails exactly where parsing fails, with the parser's error. Else the
/// audio is everything from the audio offset on, decrypted; the name is the
/// stem with the format's extension; and there are tags exactly where there
/// is metadata.
pub fn convert(stem: &str, data: Vec<u8>) -> (res: Result<Converted, NcmError>)
    ensures
        match parse_spec(data@, 0) {
            Step::Next(file, _) => {
                &&& res matches Ok(c)
                &&& c.file@ == file
                &&& c.file_name@ == output_name_spec(stem@, file.format)
                &&& c.audio@ == c.file.audio_of(data@)
                &&& match c.file.metadata {
                    Some(m) => {
                        &&& c.tags matches Some(tags)
                        &&& tags.title@ == m.music_name@
                        &&& tags.artist@ == artist_names_spec(m@)
                        &&& tags.album@ == m.album@
                        &&& match c.file.cover_image {
                            Some(image) => tags.cover matches Some(art) && art.data@ == image@
                                && art.mime == cover_mime_spec(image@),
                            None => tags.cover is None,
                        }
                    },
                    None => c.tags is None,
                }
            },
            Step::Fail(kind) => res matches Err(e) && e.kind() == kind,
        },
{
    let mut reader = ByteReader::new(data);
    let file = NcmFile::parse(&mut reader)?;
    let file_name = output_name(stem, file.format);
    let mut audio: Vec<u8> = Vec::new();
    file.dump_audio(&mut reader, &mut audio)?;
    let tags = match &file.metadata {
        Some(m) => Some(
            tag_values(
                m,
                match &file.cover_image {
                    Some(image) => Some(image.as_slice()),
                    None => None,
                },
            ),
        ),
        None => None,
    };
    Ok(Converted { file, file_name, audio, tags })
}

} // verus!
