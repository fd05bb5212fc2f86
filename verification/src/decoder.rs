//! The NCM container: its layout, the parser and the audio stream.

use crate::cipher::{
    aes128_ecb_decrypt, aes128_ecb_pkcs7, is_permutation, lemma_keystream_chunking,
    lemma_keystream_phase, rc4_ksa, rc4_ksa_spec, xor_keystream, xor_keystream_spec, AudioStream,
};
use crate::error::{ErrorKind, NcmError};
use crate::metadata::{metadata_of_bytes, MetadataView, NcmMetadata};
use crate::reader::{rest_at, take_at, ByteReader};
use base64::Engine;
use vstd::prelude::*;
use vstd::slice::slice_subrange;

verus! {

/// The magic of an NCM file: `CTENFDAM`.
pub const NCM_MAGIC: [u8; 8] = [0x43, 0x54, 0x45, 0x4E, 0x46, 0x44, 0x41, 0x4D];

/// The AES key that wraps the RC4 key.
pub const CORE_KEY: [u8; 16] = [
    0x68, 0x7A, 0x48, 0x52, 0x41, 0x6D, 0x73, 0x6F, 0x35, 0x6B, 0x49, 0x6E, 0x62, 0x61, 0x78, 0x57,
];

/// The AES key that wraps the metadata.
pub const MODIFY_KEY: [u8; 16] = [
    0x23, 0x31, 0x34, 0x6C, 0x6A, 0x6B, 0x5F, 0x21, 0x5C, 0x5D, 0x26, 0x30, 0x55, 0x3C, 0x27, 0x28,
];

/// The size of the working buffer of the audio stream.
pub const AUDIO_CHUNK: usize = 0x8000;

/// The audio formats that an NCM file can wrap.
#[derive(Debug, Clone, Copy, PartialEq, Eq, Structural)]
pub enum AudioFormat {
    Mp3,
    Flac,
}

impl AudioFormat {
    /// The file extension of the format, without a dot.
    pub open spec fn spec_extension(self) -> Seq<char> {
        match self {
            AudioFormat::Mp3 => "mp3"@,
            AudioFormat::Flac => "flac"@,
        }
    }

    /// The file extension of the format, without a dot.
    pub fn extension(self) -> (ext: &'static str)
        ensures
            ext@ == self.spec_extension(),
    {
        match self {
            AudioFormat::Mp3 => "mp3",
            AudioFormat::Flac => "flac",
        }
    }
}

/// A parsed NCM file, ready for the audio to be taken out.
pub struct NcmFile {
    pub metadata: Option<NcmMetadata>,
    pub cover_image: Option<Vec<u8>>,
    pub format: AudioFormat,
    pub key_box: [u8; 256],
    pub audio_offset: u64,
}

/// The mathematical value of an [`NcmFile`].
pub struct NcmFileView {
    pub metadata: Option<MetadataView>,
    pub cover_image: Option<Seq<u8>>,
    pub format: AudioFormat,
    pub key_box: Seq<u8>,
    pub audio_offset: nat,
}

impl View for NcmFile {
    type V = NcmFileView;

    open spec fn view(&self) -> NcmFileView {
        NcmFileView {
            metadata: match self.metadata {
                Some(m) => Some(m@),
                None => None,
            },
            cover_image: match self.cover_image {
                Some(img) => Some(img@),
                None => None,
            },
            format: self.format,
            key_box: self.key_box@,
            audio_offset: self.audio_offset as nat,
        }
    }
}

/// How one step of the layout ends: with a value and the position behind
/// it, or with the kind of error that stops the parser.
pub enum Step<T> {
    Next(T, nat),
    Fail(ErrorKind),
}

/// The number that four bytes hold, least significant byte first.
pub open spec fn u32_le(b: Seq<u8>) -> nat {
    (b[0] + 256 * b[1] + 65536 * b[2] + 16777216 * b[3]) as nat
}

/// `data` with every byte XORed with `mask`.
pub open spec fn xor_mask_spec(data: Seq<u8>, mask: u8) -> Seq<u8> {
    Seq::new(data.len(), |i: int| data[i] ^ mask)
}

/// `data` without its first `n` bytes; nothing where it has no more than `n`.
pub open spec fn drop_prefix(data: Seq<u8>, n: nat) -> Seq<u8> {
    if n <= data.len() {
        data.skip(n as int)
    } else {
        Seq::empty()
    }
}

/// Reading `n` bytes at `pos`: a short read is an `Io` error.
pub open spec fn read_step(bytes: Seq<u8>, pos: nat, n: nat) -> Step<Seq<u8>> {
    match take_at(bytes, pos, n) {
        Some(b) => Step::Next(b, pos + n),
        None => Step::Fail(ErrorKind::Io),
    }
}

/// Skipping `n` bytes at `pos`. The end of the data does not stop a skip;
/// only the end of the 64-bit positions does, with an `Io` error.
pub open spec fn skip_step(pos: nat, n: nat) -> Step<()> {
    if pos + n <= u64::MAX {
        Step::Next((), pos + n)
    } else {
        Step::Fail(ErrorKind::Io)
    }
}

/// Reading a little-endian 32-bit number at `pos`.
pub open spec fn u32_step(bytes: Seq<u8>, pos: nat) -> Step<nat> {
    match read_step(bytes, pos, 4) {
        Step::Next(b, next) => Step::Next(u32_le(b), next),
        Step::Fail(kind) => Step::Fail(kind),
    }
}

/// What the standard base64 alphabet with padding decodes `text` to, or
/// `None` where `text` is not valid base64.
pub uninterp spec fn base64_standard(text: Seq<u8>) -> Option<Seq<u8>>;

/// `Engine::decode` of `base64`'s `STANDARD` engine. The result is the named
/// decoding.
#[verifier::external_body]
fn base64_decode(text: &[u8]) -> (res: Result<Vec<u8>, base64::DecodeError>)
    ensures
        match res {
            Ok(bytes) => base64_standard(text@) == Some(bytes@),
            Err(_) => base64_standard(text@) is None,
        },
{
    base64::engine::general_purpose::STANDARD.decode(text)
}

/// The key section at `pos`: a length, then that many bytes, which XORed
/// with `0x64` and unwrapped with [`CORE_KEY`] give seventeen bytes of
/// prefix and then the RC4 key. It yields the S-box of that key. A section
/// that AES cannot unwrap, or that holds no key byte, is a `Decrypt` error.
pub open spec fn key_section(bytes: Seq<u8>, pos: nat) -> Step<Seq<u8>> {
    match u32_step(bytes, pos) {
        Step::Fail(kind) => Step::Fail(kind),
        Step::Next(key_len, at1) => match read_step(bytes, at1, key_len) {
            Step::Fail(kind) => Step::Fail(kind),
            Step::Next(wrapped, at2) => match aes128_ecb_pkcs7(
                CORE_KEY@,
                xor_mask_spec(wrapped, 0x64),
            ) {
                None => Step::Fail(ErrorKind::Decrypt),
                Some(plain) => if plain.len() > 17 {
                    Step::Next(rc4_ksa_spec(plain.skip(17)), at2)
                } else {
                    Step::Fail(ErrorKind::Decrypt)
                },
            },
        },
    }
}

/// What a metadata section that is not empty holds. XORed with `0x63` it is
/// 22 bytes of prefix and then base64; decoded and unwrapped with
/// [`MODIFY_KEY`] that is six bytes of prefix and then the JSON of the record.
pub open spec fn decode_metadata(raw: Seq<u8>) -> Result<MetadataView, ErrorKind> {
    match base64_standard(drop_prefix(xor_mask_spec(raw, 0x63), 22)) {
        None => Err(ErrorKind::Base64),
        Some(wrapped) => match aes128_ecb_pkcs7(MODIFY_KEY@, wrapped) {
            None => Err(ErrorKind::Decrypt),
            Some(plain) => match metadata_of_bytes(drop_prefix(plain, 6)) {
                None => Err(ErrorKind::Json),
                Some(m) => Ok(m),
            },
        },
    }
}

/// The metadata section at `pos`: a length, and where that is not zero, as
/// many bytes of wrapped metadata.
pub open spec fn metadata_section(bytes: Seq<u8>, pos: nat) -> Step<Option<MetadataView>> {
    match u32_step(bytes, pos) {
        Step::Fail(kind) => Step::Fail(kind),
        Step::Next(meta_len, at1) => if meta_len == 0 {
            Step::Next(None, at1)
        } else {
            match read_step(bytes, at1, meta_len) {
                Step::Fail(kind) => Step::Fail(kind),
                Step::Next(raw, at2) => match decode_metadata(raw) {
                    Ok(m) => Step::Next(Some(m), at2),
                    Err(kind) => Step::Fail(kind),
                },
            }
        },
    }
}

/// The cover frame at `pos`: the length of the frame, the size of the image,
/// the image, and what the frame has beyond the image as padding. A frame
/// shorter than its image has no padding.
pub open spec fn cover_section(bytes: Seq<u8>, pos: nat) -> Step<Option<Seq<u8>>> {
    match u32_step(bytes, pos) {
        Step::Fail(kind) => Step::Fail(kind),
        Step::Next(frame_len, at1) => match u32_step(bytes, at1) {
            Step::Fail(kind) => Step::Fail(kind),
            Step::Next(image_size, at2) => if image_size > 0 {
                match read_step(bytes, at2, image_size) {
                    Step::Fail(kind) => Step::Fail(kind),
                    Step::Next(image, at3) => {
                        let padding = if frame_len > image_size {
                            (frame_len - image_size) as nat
                        } else {
                            0
                        };
                        match skip_step(at3, padding) {
                            Step::Fail(kind) => Step::Fail(kind),
                            Step::Next(_, at4) => Step::Next(Some(image), at4),
                        }
                    },
                }
            } else {
                match skip_step(at2, frame_len) {
                    Step::Fail(kind) => Step::Fail(kind),
                    Step::Next(_, at3) => Step::Next(None, at3),
                }
            },
        },
    }
}

/// The first bytes of an MP3 file with an ID3 tag: `ID3`.
pub open spec fn id3_magic() -> Seq<u8> {
    seq![0x49u8, 0x44u8, 0x33u8]
}

/// The format that the first three decrypted bytes of the audio show.
pub open spec fn format_of(header: Seq<u8>) -> AudioFormat {
    if header == id3_magic() {
        AudioFormat::Mp3
    } else {
        AudioFormat::Flac
    }
}

/// The format of the audio at `pos`, from its first three bytes decrypted
/// with the keystream from position 0 on.
pub open spec fn sniff_step(bytes: Seq<u8>, pos: nat, key_box: Seq<u8>) -> Step<AudioFormat> {
    match read_step(bytes, pos, 3) {
        Step::Fail(kind) => Step::Fail(kind),
        Step::Next(header, next) => Step::Next(
            format_of(xor_keystream_spec(key_box, 0, header)),
            next,
        ),
    }
}

/// What follows the key section: metadata, five bytes to skip, the cover
/// frame, and the audio, whose start is recorded and whose format is sniffed.
pub open spec fn parse_body(bytes: Seq<u8>, pos: nat, key_box: Seq<u8>) -> Step<NcmFileView> {
    match metadata_section(bytes, pos) {
        Step::Fail(kind) => Step::Fail(kind),
        Step::Next(metadata, at1) => match skip_step(at1, 5) {
            Step::Fail(kind) => Step::Fail(kind),
            Step::Next(_, at2) => match cover_section(bytes, at2) {
                Step::Fail(kind) => Step::Fail(kind),
                Step::Next(cover_image, audio_offset) => match sniff_step(
                    bytes,
                    audio_offset,
                    key_box,
                ) {
                    Step::Fail(kind) => Step::Fail(kind),
                    Step::Next(format, end) => Step::Next(
                        NcmFileView { metadata, cover_image, format, key_box, audio_offset },
                        end,
                    ),
                },
            },
        },
    }
}

/// The layout of an NCM file that starts at `pos`, step by step: what the
/// parser yields and where it leaves the reader, or the kind of the first
/// error.
pub open spec fn parse_spec(bytes: Seq<u8>, pos: nat) -> Step<NcmFileView> {
    match read_step(bytes, pos, 8) {
        Step::Fail(kind) => Step::Fail(kind),
        Step::Next(magic, at1) => if magic != NCM_MAGIC@ {
            Step::Fail(ErrorKind::InvalidMagic)
        } else {
            match skip_step(at1, 2) {
                Step::Fail(kind) => Step::Fail(kind),
                Step::Next(_, at2) => match key_section(bytes, at2) {
                    Step::Fail(kind) => Step::Fail(kind),
                    Step::Next(key_box, at3) => parse_body(bytes, at3, key_box),
                },
            }
        },
    }
}

/// XORs every byte of `buf` with `mask`.
fn xor_mask(buf: &mut Vec<u8>, mask: u8)
    ensures
        final(buf)@ == xor_mask_spec(old(buf)@, mask),
{
    let n: usize = buf.len();
    let mut i: usize = 0;
    while i < n
        invariant
            i <= n,
            n == buf@.len(),
            n == old(buf)@.len(),
            forall|k: int| 0 <= k < i ==> buf@[k] == old(buf)@[k] ^ mask,
            forall|k: int| i <= k < n ==> buf@[k] == old(buf)@[k],
        decreases n - i,
    {
        let b: u8 = buf[i] ^ mask;
        buf[i] = b;
        i += 1;
    }
    assert(buf@ =~= xor_mask_spec(old(buf)@, mask));
}

/// The bytes of `data` from index `n` on; none where `data` is shorter.
fn without_prefix(data: &Vec<u8>, n: usize) -> (rest: &[u8])
    ensures
        rest@ == drop_prefix(data@, n as nat),
{
    if n <= data.len() {
        slice_subrange(data.as_slice(), n, data.len())
    } else {
        slice_subrange(data.as_slice(), 0, 0)
    }
}

/// Reads a 32-bit number, least significant byte first.
pub fn read_u32_le(r: &mut ByteReader) -> (res: Result<u32, NcmError>)
    ensures
        final(r).data@ == old(r).data@,
        match u32_step(old(r).data@, old(r).pos as nat) {
            Step::Next(n, next) => {
                &&& res matches Ok(got) && got == n
                &&& final(r).pos == next
            },
            Step::Fail(kind) => res matches Err(e) && e.kind() == kind,
        },
{
    let b = r.read_exact(4)?;
    let low: u32 = b[0] as u32 + 256 * (b[1] as u32);
    let high: u32 = b[2] as u32 + 256 * (b[3] as u32);
    Ok(low + 65536 * high)
}

/// Moves the reader `n` bytes on.
fn skip(r: &mut ByteReader, n: u32) -> (res: Result<(), NcmError>)
    ensures
        final(r).data@ == old(r).data@,
        match skip_step(old(r).pos as nat, n as nat) {
            Step::Next(_, next) => res is Ok && final(r).pos == next,
            Step::Fail(kind) => res matches Err(e) && e.kind() == kind,
        },
{
    r.seek_by(n as i64)?;
    Ok(())
}

/// Reads the key section and builds the S-box.
fn read_key_box(r: &mut ByteReader) -> (res: Result<[u8; 256], NcmError>)
    ensures
        final(r).data@ == old(r).data@,
        match key_section(old(r).data@, old(r).pos as nat) {
            Step::Next(key_box, next) => {
                &&& res matches Ok(b) && b@ == key_box
                &&& final(r).pos == next
            },
            Step::Fail(kind) => res matches Err(e) && e.kind() == kind,
        },
        res matches Ok(b) ==> is_permutation(b@),
{
    let key_len: u32 = read_u32_le(r)?;
    let mut key_data = r.read_exact(key_len as usize)?;
    xor_mask(&mut key_data, 0x64);
    let plain = aes128_ecb_decrypt(&CORE_KEY, key_data.as_slice())?;
    if plain.len() <= 17 {
        return Err(NcmError::Decrypt("the unwrapped key holds no key bytes".to_owned()));
    }
    let rc4_key = slice_subrange(plain.as_slice(), 17, plain.len());
    assert(rc4_key@ == plain@.skip(17));
    Ok(rc4_ksa(rc4_key))
}

/// Unwraps the metadata of a section that is not empty.
fn unwrap_metadata(raw: Vec<u8>) -> (res: Result<NcmMetadata, NcmError>)
    ensures
        match decode_metadata(raw@) {
            Ok(m) => res matches Ok(got) && got@ == m,
            Err(kind) => res matches Err(e) && e.kind() == kind,
        },
{
    let mut text = raw;
    xor_mask(&mut text, 0x63);
    let wrapped = match base64_decode(without_prefix(&text, 22)) {
        Ok(bytes) => bytes,
        Err(e) => return Err(NcmError::Base64(e)),
    };
    let plain = aes128_ecb_decrypt(&MODIFY_KEY, wrapped.as_slice())?;
    NcmMetadata::from_decrypted(without_prefix(&plain, 6))
}

/// Reads the metadata section.
fn read_metadata(r: &mut ByteReader) -> (res: Result<Option<NcmMetadata>, NcmError>)
    ensures
        final(r).data@ == old(r).data@,
        match metadata_section(old(r).data@, old(r).pos as nat) {
            Step::Next(metadata, next) => {
                &&& res matches Ok(got) && match got {
                    Some(m) => metadata == Some(m@),
                    None => metadata is None,
                }
                &&& final(r).pos == next
            },
            Step::Fail(kind) => res matches Err(e) && e.kind() == kind,
        },
{
    let meta_len: u32 = read_u32_le(r)?;
    if meta_len == 0 {
        return Ok(None);
    }
    let raw = r.read_exact(meta_len as usize)?;
    Ok(Some(unwrap_metadata(raw)?))
}

/// Reads the cover frame.
fn read_cover(r: &mut ByteReader) -> (res: Result<Option<Vec<u8>>, NcmError>)
    ensures
        final(r).data@ == old(r).data@,
        match cover_section(old(r).data@, old(r).pos as nat) {
            Step::Next(cover, next) => {
                &&& res matches Ok(got) && match got {
                    Some(image) => cover == Some(image@),
                    None => cover is None,
                }
                &&& final(r).pos == next
            },
            Step::Fail(kind) => res matches Err(e) && e.kind() == kind,
        },
{
    let frame_len: u32 = read_u32_le(r)?;
    let image_size: u32 = read_u32_le(r)?;
    if image_size > 0 {
        let image = r.read_exact(image_size as usize)?;
        if frame_len > image_size {
            skip(r, frame_len - image_size)?;
        }
        Ok(Some(image))
    } else {
        if frame_len > 0 {
            skip(r, frame_len)?;
        }
        Ok(None)
    }
}

/// Tells the format from the first three bytes of the encrypted audio.
pub fn sniff_format(key_box: &[u8; 256], header: Vec<u8>) -> (format: AudioFormat)
    requires
        header@.len() == 3,
    ensures
        format == format_of(xor_keystream_spec(key_box@, 0, header@)),
{
    let mut plain = header;
    xor_keystream(key_box, 0, &mut plain);
    let is_id3 = plain[0] == 0x49 && plain[1] == 0x44 && plain[2] == 0x33;
    assert(is_id3 == (plain@ =~= id3_magic()));
    if is_id3 {
        AudioFormat::Mp3
    } else {
        AudioFormat::Flac
    }
}

/// Whether `magic` is the NCM magic.
fn is_ncm_magic(magic: &Vec<u8>) -> (b: bool)
    requires
        magic@.len() == 8,
    ensures
        b == (magic@ == NCM_MAGIC@),
{
    let mut i: usize = 0;
    while i < 8
        invariant
            i <= 8,
            magic@.len() == 8,
            forall|k: int| 0 <= k < i ==> magic@[k] == NCM_MAGIC@[k],
        decreases 8 - i,
    {
        if magic[i] != NCM_MAGIC[i] {
            return false;
        }
        i += 1;
    }
    assert(magic@ =~= NCM_MAGIC@);
    true
}

impl NcmFile {
    /// Parses an NCM file from the reader's position on, and leaves the
    /// reader three bytes into the audio.
    ///
    /// The result is what the layout says of the bytes: the file, or the
    /// first error on the way, each kind exactly where the layout names it.
    pub fn parse(r: &mut ByteReader) -> (res: Result<NcmFile, NcmError>)
        ensures
            final(r).data@ == old(r).data@,
            match parse_spec(old(r).data@, old(r).pos as nat) {
                Step::Next(file, end) => res matches Ok(f) && f@ == file && final(r).pos == end,
                Step::Fail(kind) => res matches Err(e) && e.kind() == kind,
            },
            res matches Ok(f) ==> {
                &&& is_permutation(f.key_box@)
                &&& f.audio_offset >= old(r).pos + 10
                &&& final(r).pos == f.audio_offset + 3
                &&& take_at(old(r).data@, f.audio_offset as nat, 3) matches Some(header)
                &&& f.format == format_of(xor_keystream_spec(f.key_box@, 0, header))
            },
    {
        let magic = r.read_exact(8)?;
        if !is_ncm_magic(&magic) {
            return Err(NcmError::InvalidMagic);
        }
        skip(r, 2)?;
        let key_box = read_key_box(r)?;
        let metadata = read_metadata(r)?;
        skip(r, 5)?;
        let cover_image = read_cover(r)?;
        let audio_offset: u64 = r.position();
        let header = r.read_exact(3)?;
        let format = sniff_format(&key_box, header);
        Ok(NcmFile { metadata, cover_image, format, key_box, audio_offset })
    }

    /// The decrypted audio of a file whose bytes are `bytes`: everything from
    /// `audio_offset` on, XORed with the keystream from position 0.
    pub open spec fn audio_of(&self, bytes: Seq<u8>) -> Seq<u8> {
        xor_keystream_spec(self.key_box@, 0, rest_at(bytes, self.audio_offset as nat))
    }

    /// The decrypting end of the audio stream of this file, at position 0.
    pub fn audio_stream(&self) -> (stream: AudioStream)
        ensures
            stream.key_box == self.key_box,
            stream.phase == 0,
    {
        AudioStream::new(self.key_box)
    }

    /// Decrypts the audio and appends it to `w`, reading `AUDIO_CHUNK` bytes
    /// at a time. Where the reader stands before the call does not matter.
    pub fn dump_audio(&self, r: &mut ByteReader, w: &mut Vec<u8>) -> (res: Result<(), NcmError>)
        ensures
            res is Ok,
            final(r).data@ == old(r).data@,
            final(r).pos == self.audio_offset + rest_at(
                old(r).data@,
                self.audio_offset as nat,
            ).len(),
            final(w)@ == old(w)@ + self.audio_of(old(r).data@),
    {
        self.dump_audio_with(r, w, AUDIO_CHUNK)
    }

    /// Decrypts the audio and appends it to `w`, reading `chunk` bytes at a
    /// time. What is written does not depend on `chunk`.
    pub fn dump_audio_with(
        &self,
        r: &mut ByteReader,
        w: &mut Vec<u8>,
        chunk: usize,
    ) -> (res: Result<(), NcmError>)
        requires
            chunk > 0,
        ensures
            res is Ok,
            final(r).data@ == old(r).data@,
            final(r).pos == self.audio_offset + rest_at(
                old(r).data@,
                self.audio_offset as nat,
            ).len(),
            final(w)@ == old(w)@ + self.audio_of(old(r).data@),
    {
        r.seek_to(self.audio_offset);
        let ghost audio = rest_at(r.data@, self.audio_offset as nat);
        let mut stream = self.audio_stream();
        let mut offset: usize = 0;
        assert(audio.len() <= r.data@.len() == r.data.len() <= usize::MAX);
        assert(audio.take(0) =~= Seq::<u8>::empty());
        assert(w@ + xor_keystream_spec(self.key_box@, 0, Seq::<u8>::empty()) =~= w@);
        loop
            invariant
                chunk > 0,
                r.data@ == old(r).data@,
                audio == rest_at(r.data@, self.audio_offset as nat),
                offset <= audio.len() <= usize::MAX,
                stream.key_box == self.key_box,
                stream.phase == offset % 256,
                r.pos == self.audio_offset + offset,
                w@ == old(w)@ + xor_keystream_spec(self.key_box@, 0, audio.take(offset as int)),
            ensures
                offset == audio.len(),
                r.data@ == old(r).data@,
                r.pos == self.audio_offset + offset,
                w@ == old(w)@ + xor_keystream_spec(self.key_box@, 0, audio.take(offset as int)),
            decreases audio.len() - offset,
        {
            let ghost left = rest_at(r.data@, r.pos as nat);
            assert(left =~= audio.skip(offset as int));
            let mut buf = r.read(chunk);
            let n: usize = buf.len();
            if n == 0 {
                break ;
            }
            let ghost piece = buf@;
            assert(audio.take(offset as int) + piece =~= audio.take(offset + n));
            stream.decrypt(&mut buf);
            proof {
                lemma_keystream_phase(self.key_box@, offset as nat, piece);
                lemma_keystream_chunking(self.key_box@, 0, audio.take(offset as int), piece);
            }
            w.append(&mut buf);
            offset += n;
        }
        assert(audio.take(offset as int) =~= audio);
        Ok(())
    }

    /// A file of which only the S-box and the start of the audio are known.
    pub fn from_parts(key_box: [u8; 256], audio_offset: u64) -> (f: NcmFile)
        ensures
            f.metadata is None,
            f.cover_image is None,
            f.format == AudioFormat::Mp3,
            f.key_box == key_box,
            f.audio_offset == audio_offset,
    {
        NcmFile { metadata: None, cover_image: None, format: AudioFormat::Mp3, key_box, audio_offset }
    }
}

/// Parsing is a function of the bytes and the starting position: two
/// parses of one file yield the same S-box, the same audio offset and the
/// same metadata.
pub proof fn lemma_parse_twice(bytes: Seq<u8>, pos: nat, first: NcmFile, second: NcmFile)
    requires
        parse_spec(bytes, pos) matches Step::Next(file, _) && first@ == file,
        parse_spec(bytes, pos) matches Step::Next(file, _) && second@ == file,
    ensures
        first.key_box@ == second.key_box@,
        first.audio_offset == second.audio_offset,
        first@.metadata == second@.metadata,
{
}

/// A metadata section whose length field is zero yields no metadata and
/// ends right behind that field.
pub proof fn lemma_empty_metadata(bytes: Seq<u8>, pos: nat)
    requires
        u32_step(bytes, pos) matches Step::Next(meta_len, _) && meta_len == 0,
    ensures
        metadata_section(bytes, pos) == Step::<Option<MetadataView>>::Next(None, pos + 4),
{
}

/// Metadata is absent exactly where the length field of its section is zero.
pub proof fn lemma_metadata_absent_iff_empty(bytes: Seq<u8>, pos: nat)
    requires
        metadata_section(bytes, pos) is Next,
    ensures
        (metadata_section(bytes, pos)->Next_0 is None) <==> (u32_step(bytes, pos)->Next_0 == 0),
{
}

/// A cover frame whose image size is zero yields no cover, and the reader
/// moves on by exactly the length of the frame.
pub proof fn lemma_empty_cover(bytes: Seq<u8>, pos: nat, frame_len: nat)
    requires
        u32_step(bytes, pos) == Step::Next(frame_len, pos + 4),
        u32_step(bytes, pos + 4) == Step::Next(0nat, pos + 8),
        pos + 8 + frame_len <= u64::MAX,
    ensures
        cover_section(bytes, pos) == Step::<Option<Seq<u8>>>::Next(None, pos + 8 + frame_len),
{
}

/// A cover that is present has exactly as many bytes as the image size says.
pub proof fn lemma_cover_size(bytes: Seq<u8>, pos: nat)
    requires
        cover_section(bytes, pos) matches Step::Next(Some(_), _),
    ensures
        cover_section(bytes, pos) matches Step::Next(Some(image), _) && u32_step(bytes, pos + 4)
            matches Step::Next(image_size, _) && image.len() == image_size,
{
}

/// A read from a file cut off after `n` bytes finds what the read from the
/// whole file finds, or it is short.
proof fn lemma_cut_read(bytes: Seq<u8>, n: nat, pos: nat, len: nat)
    requires
        n <= bytes.len(),
    ensures
        read_step(bytes.take(n as int), pos, len) == if pos + len <= n || len == 0 {
            read_step(bytes, pos, len)
        } else {
            Step::Fail(ErrorKind::Io)
        },
{
    if pos + len <= n {
        assert(bytes.take(n as int).subrange(pos as int, (pos + len) as int) =~= bytes.subrange(
            pos as int,
            (pos + len) as int,
        ));
    } else if len == 0 && pos <= bytes.len() {
        assert(bytes.subrange(pos as int, pos as int) =~= Seq::<u8>::empty());
    }
}

/// The key section of a file cut off after `n` bytes ends as that of the
/// whole file, or in a short read.
proof fn lemma_cut_key_section(bytes: Seq<u8>, n: nat, pos: nat)
    requires
        n <= bytes.len(),
    ensures
        key_section(bytes.take(n as int), pos) == key_section(bytes, pos) || key_section(
            bytes.take(n as int),
            pos,
        ) == Step::<Seq<u8>>::Fail(ErrorKind::Io),
{
    lemma_cut_read(bytes, n, pos, 4);
    if u32_step(bytes, pos) is Next {
        let key_len = u32_step(bytes, pos)->Next_0;
        lemma_cut_read(bytes, n, pos + 4, key_len);
    }
}

/// The metadata section of a file cut off after `n` bytes ends as that of
/// the whole file, or in a short read.
proof fn lemma_cut_metadata_section(bytes: Seq<u8>, n: nat, pos: nat)
    requires
        n <= bytes.len(),
    ensures
        metadata_section(bytes.take(n as int), pos) == metadata_section(bytes, pos)
            || metadata_section(bytes.take(n as int), pos) == Step::<Option<MetadataView>>::Fail(
            ErrorKind::Io,
        ),
{
    lemma_cut_read(bytes, n, pos, 4);
    if u32_step(bytes, pos) is Next {
        let meta_len = u32_step(bytes, pos)->Next_0;
        lemma_cut_read(bytes, n, pos + 4, meta_len);
    }
}

/// The cover frame of a file cut off after `n` bytes ends as that of the
/// whole file, or in a short read.
proof fn lemma_cut_cover_section(bytes: Seq<u8>, n: nat, pos: nat)
    requires
        n <= bytes.len(),
    ensures
        cover_section(bytes.take(n as int), pos) == cover_section(bytes, pos) || cover_section(
            bytes.take(n as int),
            pos,
        ) == Step::<Option<Seq<u8>>>::Fail(ErrorKind::Io),
{
    lemma_cut_read(bytes, n, pos, 4);
    lemma_cut_read(bytes, n, pos + 4, 4);
    if u32_step(bytes, pos + 4) is Next {
        let image_size = u32_step(bytes, pos + 4)->Next_0;
        lemma_cut_read(bytes, n, pos + 8, image_size);
    }
}

/// A parse of the first `n` bytes of a file ends as the parse of the whole
/// file ends, or in a short read: what a parser finds in the head of a file
/// holds of the file.
pub proof fn lemma_parse_prefix(bytes: Seq<u8>, pos: nat, n: nat)
    requires
        n <= bytes.len(),
    ensures
        parse_spec(bytes.take(n as int), pos) == parse_spec(bytes, pos) || parse_spec(
            bytes.take(n as int),
            pos,
        ) == Step::<NcmFileView>::Fail(ErrorKind::Io),
{
    let cut = bytes.take(n as int);
    lemma_cut_read(bytes, n, pos, 8);
    if read_step(cut, pos, 8) is Next {
        let at2 = pos + 10;
        lemma_cut_key_section(bytes, n, at2);
        if key_section(cut, at2) is Next {
            let key_box = key_section(bytes, at2)->Next_0;
            let at3 = key_section(bytes, at2)->Next_1;
            lemma_cut_metadata_section(bytes, n, at3);
            if metadata_section(cut, at3) is Next {
                let at4 = metadata_section(bytes, at3)->Next_1;
                let at5 = at4 + 5;
                lemma_cut_cover_section(bytes, n, at5);
                if cover_section(cut, at5) is Next {
                    let audio_offset = cover_section(bytes, at5)->Next_1;
                    lemma_cut_read(bytes, n, audio_offset, 3);
                }
            }
        }
    }
}

/// A file that parses, cut off anywhere before the end of the three bytes
/// that the parser reads of the audio, fails to parse with an `Io` error.
pub proof fn lemma_truncated_file(bytes: Seq<u8>, pos: nat, n: nat)
    requires
        parse_spec(bytes, pos) matches Step::Next(file, _) && n < file.audio_offset + 3,
        n <= bytes.len(),
    ensures
        parse_spec(bytes.take(n as int), pos) == Step::<NcmFileView>::Fail(ErrorKind::Io),
{
    lemma_parse_prefix(bytes, pos, n);
    let cut = bytes.take(n as int);
    if parse_spec(cut, pos) is Next {
        let audio_offset = parse_spec(cut, pos)->Next_0.audio_offset;
        assert(sniff_step(cut, audio_offset, parse_spec(cut, pos)->Next_0.key_box) is Next);
        assert(take_at(cut, audio_offset, 3) is Some);
    }
}

/// A file whose audio offset lies at or past the end of the bytes has no
/// audio: dumping it writes nothing.
pub proof fn lemma_empty_audio(file: NcmFile, bytes: Seq<u8>)
    requires
        file.audio_offset >= bytes.len(),
    ensures
        file.audio_of(bytes) == Seq::<u8>::empty(),
{
    assert(rest_at(bytes, file.audio_offset as nat) =~= Seq::<u8>::empty());
    assert(file.audio_of(bytes) =~= Seq::<u8>::empty());
}

/// The format is `Mp3` exactly where the first three decrypted bytes are
/// `ID3`, whatever the metadata says.
pub proof fn lemma_format_detection(bytes: Seq<u8>, pos: nat, key_box: Seq<u8>)
    requires
        sniff_step(bytes, pos, key_box) is Next,
    ensures
        take_at(bytes, pos, 3) matches Some(header) && (sniff_step(bytes, pos, key_box)->Next_0
            == AudioFormat::Mp3 <==> xor_keystream_spec(key_box, 0, header) == id3_magic()) && (
        sniff_step(bytes, pos, key_box)->Next_0 == AudioFormat::Flac <==> xor_keystream_spec(
            key_box,
            0,
            header,
        ) != id3_magic()),
{
}

} // verus!
