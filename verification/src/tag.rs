//! What the tag writer is to put into an audio file.

use crate::error::NcmError;
use crate::metadata::{artist_names_spec, NcmMetadata};
use vstd::prelude::*;
use vstd::slice::slice_to_vec;
use vstd::string::StringExecFns;

verus! {

/// The first eight bytes of a PNG image.
pub const PNG_MAGIC: [u8; 8] = [0x89, 0x50, 0x4E, 0x47, 0x0D, 0x0A, 0x1A, 0x0A];

/// The MIME type under which a cover is attached.
#[derive(Debug, Clone, Copy, PartialEq, Eq, Structural)]
pub enum CoverMime {
    Png,
    Jpeg,
}

impl CoverMime {
    /// The name of the MIME type.
    pub open spec fn spec_name(self) -> Seq<char> {
        match self {
            CoverMime::Png => "image/png"@,
            CoverMime::Jpeg => "image/jpeg"@,
        }
    }

    /// The name of the MIME type.
    pub fn name(self) -> (name: &'static str)
        ensures
            name@ == self.spec_name(),
    {
        match self {
            CoverMime::Png => "image/png",
            CoverMime::Jpeg => "image/jpeg",
        }
    }
}

/// A cover image with its MIME type, to be attached as the front cover.
#[derive(Debug, Clone)]
pub struct CoverArt {
    pub mime: CoverMime,
    pub data: Vec<u8>,
}

/// The tags of one audio file.
#[derive(Debug, Clone)]
pub struct TagValues {
    pub title: String,
    pub artist: String,
    pub album: String,
    pub cover: Option<CoverArt>,
}

/// The tag of an audio file that the values go into.
#[derive(Debug, Clone, Copy, PartialEq, Eq, Structural)]
pub enum TagSlot {
    /// The tag that is usual for the format of the file.
    Primary,
    /// The first tag that the file has.
    First,
}

/// Picks the tag to write into: the primary tag where the file has one,
/// else the first tag that it has. A file without any tag cannot be tagged:
/// the error is `Tag`, with the text `no tag found in file`.
pub fn choose_tag_slot(has_primary: bool, has_any: bool) -> (res: Result<TagSlot, NcmError>)
    ensures
        has_primary ==> res == Ok::<TagSlot, NcmError>(TagSlot::Primary),
        !has_primary && has_any ==> res == Ok::<TagSlot, NcmError>(TagSlot::First),
        !has_primary && !has_any ==> (res matches Err(NcmError::Tag(text)) && text@
            == "no tag found in file"@),
{
    if has_primary {
        Ok(TagSlot::Primary)
    } else if has_any {
        Ok(TagSlot::First)
    } else {
        Err(NcmError::Tag(String::from_str("no tag found in file")))
    }
}

/// Whether `image` starts with the PNG magic.
pub open spec fn is_png(image: Seq<u8>) -> bool {
    image.len() >= 8 && image.take(8) == PNG_MAGIC@
}

/// The MIME type of a cover: PNG where the image starts with the PNG magic,
/// JPEG for anything else.
pub open spec fn cover_mime_spec(image: Seq<u8>) -> CoverMime {
    if is_png(image) {
        CoverMime::Png
    } else {
        CoverMime::Jpeg
    }
}

/// The MIME type of a cover, told by its first bytes.
pub fn cover_mime(image: &[u8]) -> (mime: CoverMime)
    ensures
        mime == cover_mime_spec(image@),
{
    if image.len() < 8 {
        return CoverMime::Jpeg;
    }
    let mut i: usize = 0;
    while i < 8
        invariant
            i <= 8,
            image@.len() >= 8,
            forall|k: int| 0 <= k < i ==> image@[k] == PNG_MAGIC@[k],
        decreases 8 - i,
    {
        if image[i] != PNG_MAGIC[i] {
            assert(image@.take(8)[i as int] != PNG_MAGIC@[i as int]);
            return CoverMime::Jpeg;
        }
        i += 1;
    }
    assert(image@.take(8) =~= PNG_MAGIC@);
    CoverMime::Png
}

/// The tags for a file with this metadata and cover: the title is the
/// track's name, the artist the names of the artists joined with " / ", the
/// album its album; a cover goes in whole, under the MIME type that its
/// first bytes show.
pub fn tag_values(metadata: &NcmMetadata, cover: Option<&[u8]>) -> (tags: TagValues)
    ensures
        tags.title@ == metadata.music_name@,
        tags.artist@ == artist_names_spec(metadata@),
        tags.album@ == metadata.album@,
        match cover {
            Some(image) => tags.cover matches Some(art) && art.data@ == image@ && art.mime
                == cover_mime_spec(image@),
            None => tags.cover is None,
        },
{
    let cover = match cover {
        Some(image) => Some(CoverArt { mime: cover_mime(image), data: slice_to_vec(image) }),
        None => None,
    };
    TagValues {
        title: metadata.music_name.clone(),
        artist: metadata.artist_names(),
        album: metadata.album.clone(),
        cover,
    }
}

} // verus!
