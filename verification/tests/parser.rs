use aes::Aes128;
use base64::Engine;
use ecb::cipher::block_padding::Pkcs7;
use ecb::cipher::{BlockEncryptMut, KeyInit};
use ncmdump::decoder::{read_u32_le, sniff_format, CORE_KEY, MODIFY_KEY};
use ncmdump::{AudioFormat, ByteReader, ErrorKind, IoFailure, NcmError, NcmFile};

const META: &[u8] = br#"{"musicName":"Test","album":"A","artist":[["X",0],["Y",1]],"bitrate":320000,"duration":240000,"format":"mp3"}"#;
const PNG: [u8; 12] = [0x89, 0x50, 0x4E, 0x47, 0x0D, 0x0A, 0x1A, 0x0A, 1, 2, 3, 4];

fn ecb_encrypt(key: &[u8; 16], plain: &[u8]) -> Vec<u8> {
    let mut buf = vec![0u8; plain.len() + 16];
    buf[..plain.len()].copy_from_slice(plain);
    ecb::Encryptor::<Aes128>::new(key.into())
        .encrypt_padded_mut::<Pkcs7>(&mut buf, plain.len())
        .unwrap()
        .to_vec()
}

fn reference_box(key: &[u8]) -> [u8; 256] {
    let mut s = [0u8; 256];
    for i in 0..256 {
        s[i] = i as u8;
    }
    let mut last = 0usize;
    let mut j = 0usize;
    for i in 0..256 {
        let swap = s[i];
        let c = (swap as usize + last + key[j] as usize) % 256;
        j = (j + 1) % key.len();
        s[i] = s[c];
        s[c] = swap;
        last = c;
    }
    s
}

fn reference_stream(s: &[u8; 256], n: usize) -> u8 {
    let j = (n + 1) & 0xff;
    let jv = s[j] as usize;
    s[(jv + s[(jv + j) & 0xff] as usize) & 0xff]
}

fn encrypt_audio(key: &[u8], plain: &[u8]) -> Vec<u8> {
    let s = reference_box(key);
    plain.iter().enumerate().map(|(i, b)| b ^ reference_stream(&s, i)).collect()
}

fn key_section(rc4_key: &[u8]) -> Vec<u8> {
    let mut plain = b"neteasecloudmusic".to_vec();
    plain.extend_from_slice(rc4_key);
    let wrapped: Vec<u8> = ecb_encrypt(&CORE_KEY, &plain).iter().map(|b| b ^ 0x64).collect();
    let mut out = (wrapped.len() as u32).to_le_bytes().to_vec();
    out.extend_from_slice(&wrapped);
    out
}

fn meta_section_of_text(text: &[u8]) -> Vec<u8> {
    let mut raw = b"163 key(Don't modify):".to_vec();
    raw.extend_from_slice(text);
    let raw: Vec<u8> = raw.iter().map(|b| b ^ 0x63).collect();
    let mut out = (raw.len() as u32).to_le_bytes().to_vec();
    out.extend_from_slice(&raw);
    out
}

fn meta_section(json: Option<&[u8]>) -> Vec<u8> {
    match json {
        None => 0u32.to_le_bytes().to_vec(),
        Some(json) => {
            let mut plain = b"music:".to_vec();
            plain.extend_from_slice(json);
            let wrapped = ecb_encrypt(&MODIFY_KEY, &plain);
            let text = base64::engine::general_purpose::STANDARD.encode(wrapped);
            meta_section_of_text(text.as_bytes())
        }
    }
}

fn cover_section(frame_len: u32, image: &[u8], padding: usize) -> Vec<u8> {
    let mut out = frame_len.to_le_bytes().to_vec();
    out.extend_from_slice(&(image.len() as u32).to_le_bytes());
    out.extend_from_slice(image);
    out.extend_from_slice(&vec![0xAAu8; padding]);
    out
}

fn assemble(key: Vec<u8>, meta: Vec<u8>, cover: Vec<u8>, audio: &[u8]) -> (Vec<u8>, u64) {
    let mut out = b"CTENFDAM".to_vec();
    out.extend_from_slice(&[1, 2]);
    out.extend_from_slice(&key);
    out.extend_from_slice(&meta);
    out.extend_from_slice(&[9, 9, 9, 9, 9]);
    out.extend_from_slice(&cover);
    let offset = out.len() as u64;
    out.extend_from_slice(audio);
    (out, offset)
}

fn build(json: Option<&[u8]>, image: &[u8], padding: usize, plain_audio: &[u8]) -> (Vec<u8>, u64) {
    let rc4_key = b"an rc4 key for the test";
    assemble(
        key_section(rc4_key),
        meta_section(json),
        cover_section((image.len() + padding) as u32, image, padding),
        &encrypt_audio(rc4_key, plain_audio),
    )
}

fn mp3_audio() -> Vec<u8> {
    let mut audio = vec![0x49, 0x44, 0x33, 0x04];
    audio.extend((0..100_000u32).map(|i| (i % 253) as u8));
    audio
}

fn flac_audio() -> Vec<u8> {
    let mut audio = vec![0x66, 0x4C, 0x61, 0x43];
    audio.extend((0..1000u32).map(|i| (i % 7) as u8));
    audio
}

#[test]
fn parse_reads_every_section() {
    let audio = mp3_audio();
    let (bytes, offset) = build(Some(META), &PNG, 5, &audio);
    let mut r = ByteReader::new(bytes);
    let ncm = NcmFile::parse(&mut r).unwrap();
    assert_eq!(ncm.audio_offset, offset);
    assert_eq!(r.position(), offset + 3);
    assert_eq!(ncm.format, AudioFormat::Mp3);
    assert_eq!(ncm.key_box, reference_box(b"an rc4 key for the test"));
    assert_eq!(ncm.cover_image.as_deref(), Some(&PNG[..]));
    let meta = ncm.metadata.unwrap();
    assert_eq!(meta.music_name, "Test");
    assert_eq!(meta.album, "A");
    assert_eq!(meta.artist_names(), "X / Y");
    assert_eq!(meta.bitrate, 320000);
}

#[test]
fn parse_detects_flac() {
    let (bytes, _) = build(Some(META), &[], 0, &flac_audio());
    let ncm = NcmFile::parse(&mut ByteReader::new(bytes)).unwrap();
    assert_eq!(ncm.format, AudioFormat::Flac);
    assert_eq!(ncm.metadata.unwrap().format, "mp3");
}

#[test]
fn parse_takes_anything_but_id3_for_flac() {
    let (bytes, _) = build(None, &[], 0, &[0x49, 0x44, 0x34, 0x00]);
    let ncm = NcmFile::parse(&mut ByteReader::new(bytes)).unwrap();
    assert_eq!(ncm.format, AudioFormat::Flac);
}

#[test]
fn parse_twice_gives_the_same() {
    let (bytes, _) = build(Some(META), &PNG, 0, &mp3_audio());
    let a = NcmFile::parse(&mut ByteReader::new(bytes.clone())).unwrap();
    let b = NcmFile::parse(&mut ByteReader::new(bytes)).unwrap();
    assert_eq!(a.key_box, b.key_box);
    assert_eq!(a.audio_offset, b.audio_offset);
    assert_eq!(a.format, b.format);
    assert_eq!(a.cover_image, b.cover_image);
    let (ma, mb) = (a.metadata.unwrap(), b.metadata.unwrap());
    assert_eq!(ma.music_name, mb.music_name);
    assert_eq!(ma.album, mb.album);
    assert_eq!(ma.artist_names(), mb.artist_names());
    assert_eq!((ma.bitrate, ma.duration), (mb.bitrate, mb.duration));
}

#[test]
fn parse_rejects_bad_magic() {
    let mut bytes = vec![0x41, 0x42, 0x43, 0x44, 0x45, 0x46, 0x47, 0x48];
    bytes.extend_from_slice(&[0u8; 100]);
    let err = NcmFile::parse(&mut ByteReader::new(bytes)).err().unwrap();
    assert!(matches!(err, NcmError::InvalidMagic));
}

#[test]
fn parse_with_empty_metadata() {
    let audio = flac_audio();
    let (bytes, offset) = build(None, &PNG, 0, &audio);
    let mut r = ByteReader::new(bytes);
    let ncm = NcmFile::parse(&mut r).unwrap();
    assert!(ncm.metadata.is_none());
    assert_eq!(ncm.audio_offset, offset);
    let mut out = Vec::new();
    ncm.dump_audio(&mut r, &mut out).unwrap();
    assert_eq!(out, audio);
}

#[test]
fn parse_with_empty_cover_skips_the_frame() {
    let rc4_key = b"k";
    let audio = encrypt_audio(rc4_key, &flac_audio());
    for frame_len in [0u32, 1, 37] {
        let mut cover = frame_len.to_le_bytes().to_vec();
        cover.extend_from_slice(&0u32.to_le_bytes());
        let before = 8 + 2 + key_section(rc4_key).len() + 4 + 5 + 8;
        cover.extend_from_slice(&vec![0x55u8; frame_len as usize]);
        let (bytes, offset) = assemble(key_section(rc4_key), meta_section(None), cover, &audio);
        let ncm = NcmFile::parse(&mut ByteReader::new(bytes)).unwrap();
        assert!(ncm.cover_image.is_none());
        assert_eq!(ncm.audio_offset, offset);
        assert_eq!(ncm.audio_offset, (before + frame_len as usize) as u64);
        assert_eq!(ncm.format, AudioFormat::Flac);
    }
}

#[test]
fn parse_cover_with_padding() {
    let (bytes, offset) = build(None, &PNG, 20, &flac_audio());
    let ncm = NcmFile::parse(&mut ByteReader::new(bytes)).unwrap();
    assert_eq!(ncm.cover_image.as_deref(), Some(&PNG[..]));
    assert_eq!(ncm.audio_offset, offset);
}

#[test]
fn parse_cover_frame_shorter_than_image() {
    let rc4_key = b"k";
    let audio = encrypt_audio(rc4_key, &flac_audio());
    let cover = cover_section(3, &PNG, 0);
    let (bytes, offset) = assemble(key_section(rc4_key), meta_section(None), cover, &audio);
    let ncm = NcmFile::parse(&mut ByteReader::new(bytes)).unwrap();
    assert_eq!(ncm.cover_image.as_deref(), Some(&PNG[..]));
    assert_eq!(ncm.audio_offset, offset);
}

#[test]
fn parse_truncated_file_is_an_io_error() {
    let (bytes, offset) = build(Some(META), &PNG, 4, &mp3_audio());
    let end = offset as usize + 3;
    assert!(NcmFile::parse(&mut ByteReader::new(bytes[..end].to_vec())).is_ok());
    for cut in [0usize, 7, 8, 10, 13, 20, 60, 100, 200, end - 30, end - 4, end - 3, end - 1] {
        let err = NcmFile::parse(&mut ByteReader::new(bytes[..cut].to_vec())).err().unwrap();
        assert!(matches!(err, NcmError::Io(IoFailure::UnexpectedEof)), "cut at {}", cut);
    }
}

#[test]
fn parse_from_a_later_position() {
    let (bytes, offset) = build(Some(META), &PNG, 0, &mp3_audio());
    let mut shifted = vec![0u8; 11];
    shifted.extend_from_slice(&bytes);
    let mut r = ByteReader::new(shifted);
    r.seek_to(11);
    let ncm = NcmFile::parse(&mut r).unwrap();
    assert_eq!(ncm.audio_offset, offset + 11);
    assert_eq!(r.position(), offset + 14);
}

#[test]
fn parse_key_that_does_not_unwrap() {
    let mut key = 16u32.to_le_bytes().to_vec();
    key.extend_from_slice(&[0x64u8; 16]);
    let (bytes, _) = assemble(key, meta_section(None), cover_section(0, &[], 0), &[1, 2, 3]);
    let err = NcmFile::parse(&mut ByteReader::new(bytes)).err().unwrap();
    assert_eq!(err.kind(), ErrorKind::Decrypt);
    let mut key = 15u32.to_le_bytes().to_vec();
    key.extend_from_slice(&[0u8; 15]);
    let (bytes, _) = assemble(key, meta_section(None), cover_section(0, &[], 0), &[1, 2, 3]);
    let err = NcmFile::parse(&mut ByteReader::new(bytes)).err().unwrap();
    assert!(matches!(err, NcmError::Decrypt(ref text) if text == "Unpad Error"));
}

#[test]
fn parse_key_without_key_bytes() {
    for plain in [&b"neteasecloudmusic"[..], &b"short"[..], &b""[..]] {
        let wrapped: Vec<u8> = ecb_encrypt(&CORE_KEY, plain).iter().map(|b| b ^ 0x64).collect();
        let mut key = (wrapped.len() as u32).to_le_bytes().to_vec();
        key.extend_from_slice(&wrapped);
        let (bytes, _) = assemble(key, meta_section(None), cover_section(0, &[], 0), &[1, 2, 3]);
        let err = NcmFile::parse(&mut ByteReader::new(bytes)).err().unwrap();
        assert_eq!(err.kind(), ErrorKind::Decrypt);
    }
}

#[test]
fn parse_metadata_that_is_not_base64() {
    let meta = meta_section_of_text(b"***not base64***");
    let (bytes, _) = assemble(key_section(b"k"), meta, cover_section(0, &[], 0), &[1, 2, 3]);
    let err = NcmFile::parse(&mut ByteReader::new(bytes)).err().unwrap();
    assert!(matches!(err, NcmError::Base64(_)));
    assert_eq!(err.kind(), ErrorKind::Base64);
}

#[test]
fn parse_metadata_that_does_not_unwrap() {
    let text = base64::engine::general_purpose::STANDARD.encode([7u8; 15]);
    let meta = meta_section_of_text(text.as_bytes());
    let (bytes, _) = assemble(key_section(b"k"), meta, cover_section(0, &[], 0), &[1, 2, 3]);
    let err = NcmFile::parse(&mut ByteReader::new(bytes)).err().unwrap();
    assert_eq!(err.kind(), ErrorKind::Decrypt);
}

#[test]
fn parse_metadata_shorter_than_its_prefix() {
    let raw: Vec<u8> = b"163 key".iter().map(|b| b ^ 0x63).collect();
    let mut meta = (raw.len() as u32).to_le_bytes().to_vec();
    meta.extend_from_slice(&raw);
    let (bytes, _) = assemble(key_section(b"k"), meta, cover_section(0, &[], 0), &[1, 2, 3]);
    let err = NcmFile::parse(&mut ByteReader::new(bytes)).err().unwrap();
    assert_eq!(err.kind(), ErrorKind::Decrypt);
}

#[test]
fn parse_metadata_that_is_not_json() {
    let (bytes, _) = build(Some(b"{not json"), &[], 0, &flac_audio());
    let err = NcmFile::parse(&mut ByteReader::new(bytes)).err().unwrap();
    assert!(matches!(err, NcmError::Json(_)));
    let (bytes, _) = build(Some(br#"{"musicName":"only"}"#), &[], 0, &flac_audio());
    let err = NcmFile::parse(&mut ByteReader::new(bytes)).err().unwrap();
    assert_eq!(err.kind(), ErrorKind::Json);
}

#[test]
fn parse_metadata_with_a_second_prefix() {
    let mut json = b"music:".to_vec();
    json.extend_from_slice(META);
    let (bytes, _) = build(Some(&json), &[], 0, &flac_audio());
    let ncm = NcmFile::parse(&mut ByteReader::new(bytes)).unwrap();
    assert_eq!(ncm.metadata.unwrap().music_name, "Test");
}

#[test]
fn dump_audio_restores_the_audio() {
    let audio = mp3_audio();
    let (bytes, _) = build(Some(META), &PNG, 3, &audio);
    let mut r = ByteReader::new(bytes.clone());
    let ncm = NcmFile::parse(&mut r).unwrap();
    let mut out = vec![0xEE];
    ncm.dump_audio(&mut r, &mut out).unwrap();
    assert_eq!(out[0], 0xEE);
    assert_eq!(&out[1..], &audio[..]);
    assert_eq!(r.position(), bytes.len() as u64);
}

#[test]
fn dump_audio_is_the_same_for_every_chunk_size() {
    let audio = mp3_audio();
    let (bytes, _) = build(None, &[], 0, &audio);
    let mut r = ByteReader::new(bytes);
    let ncm = NcmFile::parse(&mut r).unwrap();
    for chunk in [1usize, 2, 3, 255, 256, 257, 4096, 0x8000, 100_003, 100_004, usize::MAX] {
        r.seek_to(chunk as u64 % 17);
        let mut out = Vec::new();
        ncm.dump_audio_with(&mut r, &mut out, chunk).unwrap();
        assert_eq!(out, audio, "chunk size {}", chunk);
    }
}

#[test]
fn dump_audio_of_an_empty_payload() {
    let (bytes, offset) = build(None, &[], 0, &[]);
    let ncm = NcmFile::from_parts(reference_box(b"an rc4 key for the test"), offset);
    let mut r = ByteReader::new(bytes.clone());
    let mut out = Vec::new();
    ncm.dump_audio(&mut r, &mut out).unwrap();
    assert!(out.is_empty());
    let past = NcmFile::from_parts(reference_box(b"k"), bytes.len() as u64 + 10);
    past.dump_audio(&mut r, &mut out).unwrap();
    assert!(out.is_empty());
    assert_eq!(r.position(), bytes.len() as u64 + 10);
}

#[test]
fn from_parts_keeps_its_parts() {
    let key_box = reference_box(b"parts");
    let ncm = NcmFile::from_parts(key_box, 77);
    assert_eq!(ncm.key_box, key_box);
    assert_eq!(ncm.audio_offset, 77);
    assert_eq!(ncm.format, AudioFormat::Mp3);
    assert!(ncm.metadata.is_none());
    assert!(ncm.cover_image.is_none());
}

#[test]
fn from_parts_dumps_like_the_parsed_file() {
    let audio = flac_audio();
    let (bytes, _) = build(Some(META), &PNG, 0, &audio);
    let mut r = ByteReader::new(bytes);
    let parsed = NcmFile::parse(&mut r).unwrap();
    let again = NcmFile::from_parts(parsed.key_box, parsed.audio_offset);
    let mut out = Vec::new();
    again.dump_audio(&mut r, &mut out).unwrap();
    assert_eq!(out, audio);
}

#[test]
fn extension_of_each_format() {
    assert_eq!(AudioFormat::Mp3.extension(), "mp3");
    assert_eq!(AudioFormat::Flac.extension(), "flac");
}

#[test]
fn sniff_format_reads_the_decrypted_header() {
    let key_box = reference_box(b"sniff");
    let id3 = encrypt_audio(b"sniff", &[0x49, 0x44, 0x33]);
    assert_eq!(sniff_format(&key_box, id3), AudioFormat::Mp3);
    assert_eq!(sniff_format(&key_box, vec![0x49, 0x44, 0x33]), AudioFormat::Flac);
}

#[test]
fn read_u32_le_reads_little_endian() {
    let mut r = ByteReader::new(vec![0x78, 0x56, 0x34, 0x12, 0xff, 0xff, 0xff, 0xff, 1, 2, 3]);
    assert_eq!(read_u32_le(&mut r).unwrap(), 0x12345678);
    assert_eq!(read_u32_le(&mut r).unwrap(), u32::MAX);
    let err = read_u32_le(&mut r).unwrap_err();
    assert!(matches!(err, NcmError::Io(IoFailure::UnexpectedEof)));
    assert_eq!(r.position(), 8);
}

#[test]
fn reader_reads_and_seeks() {
    let mut r = ByteReader::new(vec![1, 2, 3, 4, 5]);
    assert_eq!(r.read_exact(2).unwrap(), vec![1, 2]);
    assert_eq!(r.read(2), vec![3, 4]);
    assert_eq!(r.read(2), vec![5]);
    assert_eq!(r.read(2), Vec::<u8>::new());
    assert_eq!(r.seek_by(-3).unwrap(), 2);
    assert_eq!(r.read_exact(3).unwrap(), vec![3, 4, 5]);
    assert_eq!(r.seek_by(10).unwrap(), 15);
    assert!(r.read_exact(1).is_err());
    assert_eq!(r.read_exact(0).unwrap(), Vec::<u8>::new());
    assert_eq!(r.position(), 15);
    let err = r.seek_by(-16).unwrap_err();
    assert!(matches!(err, NcmError::Io(IoFailure::InvalidSeek)));
    assert_eq!(r.position(), 15);
    r.seek_to(u64::MAX);
    let err = r.seek_by(1).unwrap_err();
    assert!(matches!(err, NcmError::Io(IoFailure::InvalidSeek)));
    assert_eq!(r.seek_by(i64::MIN).unwrap(), u64::MAX - (1u64 << 63));
}

#[test]
fn error_messages() {
    assert_eq!(NcmError::InvalidMagic.message(), "not a valid NCM file (bad magic)");
    assert_eq!(
        NcmError::Io(IoFailure::UnexpectedEof).message(),
        "I/O error: failed to fill whole buffer"
    );
    assert_eq!(
        NcmError::Io(IoFailure::InvalidSeek).message(),
        "I/O error: invalid seek to a negative or overflowing position"
    );
    assert_eq!(
        NcmError::Decrypt("Unpad Error".to_string()).message(),
        "decryption failed: Unpad Error"
    );
    assert_eq!(NcmError::UnsupportedFormat.message(), "unsupported audio format");
    assert_eq!(NcmError::Tag("no tag".to_string()).message(), "tagging error: no tag");
    assert_eq!(
        NcmError::Base64(base64::DecodeError::InvalidPadding).message(),
        "base64 decode error: Invalid padding"
    );
    let json = ncmdump::Json::from_text(b"[").unwrap_err();
    assert_eq!(
        NcmError::Json(json).message(),
        "JSON parse error: EOF while parsing a list at line 1 column 1"
    );
}

#[test]
fn error_kinds() {
    assert_eq!(NcmError::InvalidMagic.kind(), ErrorKind::InvalidMagic);
    assert_eq!(NcmError::Io(IoFailure::InvalidSeek).kind(), ErrorKind::Io);
    assert_eq!(NcmError::Decrypt(String::new()).kind(), ErrorKind::Decrypt);
    assert_eq!(NcmError::Base64(base64::DecodeError::InvalidPadding).kind(), ErrorKind::Base64);
    assert_eq!(NcmError::UnsupportedFormat.kind(), ErrorKind::UnsupportedFormat);
    assert_eq!(NcmError::Tag(String::new()).kind(), ErrorKind::Tag);
}
