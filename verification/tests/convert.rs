use aes::Aes128;
use base64::Engine;
use ecb::cipher::block_padding::Pkcs7;
use ecb::cipher::{BlockEncryptMut, KeyInit};
use ncmdump::cipher::xor_keystream;
use ncmdump::convert::{is_ncm_file_name, output_name};
use ncmdump::decoder::{CORE_KEY, MODIFY_KEY};
use ncmdump::tag::cover_mime;
use ncmdump::{
    choose_tag_slot, convert, rc4_ksa, tag_values, AudioFormat, CoverMime, NcmError, NcmMetadata,
    TagSlot,
};

const META: &[u8] = br#"{"musicName":"Test","album":"A","artist":[["X",0],["Y",1]],"bitrate":320000,"duration":240000,"format":"flac"}"#;
const PNG: [u8; 10] = [0x89, 0x50, 0x4E, 0x47, 0x0D, 0x0A, 0x1A, 0x0A, 0, 1];
const JPEG: [u8; 10] = [0xFF, 0xD8, 0xFF, 0xE0, 0, 0x10, 0x4A, 0x46, 0x49, 0x46];

fn ecb_encrypt(key: &[u8; 16], plain: &[u8]) -> Vec<u8> {
    let mut buf = vec![0u8; plain.len() + 16];
    buf[..plain.len()].copy_from_slice(plain);
    ecb::Encryptor::<Aes128>::new(key.into())
        .encrypt_padded_mut::<Pkcs7>(&mut buf, plain.len())
        .unwrap()
        .to_vec()
}

fn ncm_file(json: Option<&[u8]>, image: &[u8], plain_audio: &[u8]) -> Vec<u8> {
    let rc4_key = b"0123456789 key";
    let mut out = b"CTENFDAM".to_vec();
    out.extend_from_slice(&[0, 0]);
    let mut plain = b"neteasecloudmusic".to_vec();
    plain.extend_from_slice(rc4_key);
    let wrapped: Vec<u8> = ecb_encrypt(&CORE_KEY, &plain).iter().map(|b| b ^ 0x64).collect();
    out.extend_from_slice(&(wrapped.len() as u32).to_le_bytes());
    out.extend_from_slice(&wrapped);
    match json {
        None => out.extend_from_slice(&0u32.to_le_bytes()),
        Some(json) => {
            let mut plain = b"music:".to_vec();
            plain.extend_from_slice(json);
            let text = base64::engine::general_purpose::STANDARD.encode(ecb_encrypt(&MODIFY_KEY, &plain));
            let mut raw = b"163 key(Don't modify):".to_vec();
            raw.extend_from_slice(text.as_bytes());
            out.extend_from_slice(&(raw.len() as u32).to_le_bytes());
            out.extend(raw.iter().map(|b| b ^ 0x63));
        }
    }
    out.extend_from_slice(&[0; 5]);
    out.extend_from_slice(&(image.len() as u32).to_le_bytes());
    out.extend_from_slice(&(image.len() as u32).to_le_bytes());
    out.extend_from_slice(image);
    let mut audio = plain_audio.to_vec();
    xor_keystream(&rc4_ksa(rc4_key), 0, &mut audio);
    out.extend_from_slice(&audio);
    out
}

#[test]
fn convert_rejects_bad_magic() {
    let mut bytes = vec![0x41, 0x42, 0x43];
    bytes.extend_from_slice(&[0x44; 64]);
    let err = convert("song", bytes).err().unwrap();
    assert!(matches!(err, NcmError::InvalidMagic));
}

#[test]
fn convert_mp3() {
    let mut audio = vec![0x49, 0x44, 0x33, 0x04];
    audio.extend_from_slice(&[0x11; 5000]);
    let converted = convert("song", ncm_file(Some(META), &JPEG, &audio)).unwrap();
    assert!(converted.file_name.ends_with(".mp3"));
    assert_eq!(converted.file_name, "song.mp3");
    assert_eq!(&converted.audio[..4], &[0x49, 0x44, 0x33, 0x04]);
    assert_eq!(converted.audio, audio);
    assert_eq!(converted.file.format, AudioFormat::Mp3);
}

#[test]
fn convert_flac() {
    let mut audio = vec![0x66, 0x4C, 0x61, 0x43];
    audio.extend_from_slice(&[0x22; 70_000]);
    let converted = convert("a.b", ncm_file(Some(META), &[], &audio)).unwrap();
    assert!(converted.file_name.ends_with(".flac"));
    assert_eq!(converted.file_name, "a.b.flac");
    assert_eq!(&converted.audio[..4], &[0x66, 0x4C, 0x61, 0x43]);
    assert_eq!(converted.audio, audio);
}

#[test]
fn convert_gives_the_tags_of_the_metadata() {
    let audio = vec![0x49, 0x44, 0x33, 0x04, 0];
    let converted = convert("song", ncm_file(Some(META), &[], &audio)).unwrap();
    let tags = converted.tags.unwrap();
    assert_eq!(tags.title, "Test");
    assert_eq!(tags.artist, "X / Y");
    assert_eq!(tags.album, "A");
    assert!(tags.cover.is_none());
}

#[test]
fn convert_without_metadata_and_cover() {
    let audio = vec![0x66, 0x4C, 0x61, 0x43, 1, 2, 3];
    let converted = convert("plain", ncm_file(None, &[], &audio)).unwrap();
    assert!(converted.tags.is_none());
    assert!(converted.file.metadata.is_none());
    assert!(converted.file.cover_image.is_none());
    assert_eq!(converted.audio, audio);
}

#[test]
fn convert_png_cover() {
    let audio = vec![0x49, 0x44, 0x33, 0x04];
    let converted = convert("song", ncm_file(Some(META), &PNG, &audio)).unwrap();
    let cover = converted.tags.unwrap().cover.unwrap();
    assert_eq!(cover.mime, CoverMime::Png);
    assert_eq!(cover.mime.name(), "image/png");
    assert_eq!(cover.data, PNG.to_vec());
}

#[test]
fn convert_other_cover_is_jpeg() {
    let audio = vec![0x49, 0x44, 0x33, 0x04];
    let converted = convert("song", ncm_file(Some(META), &JPEG, &audio)).unwrap();
    let cover = converted.tags.unwrap().cover.unwrap();
    assert_eq!(cover.mime, CoverMime::Jpeg);
    assert_eq!(cover.mime.name(), "image/jpeg");
    assert_eq!(cover.data, JPEG.to_vec());
}

#[test]
fn cover_mime_goes_by_the_magic() {
    assert_eq!(cover_mime(&PNG), CoverMime::Png);
    assert_eq!(cover_mime(&PNG[..8]), CoverMime::Png);
    assert_eq!(cover_mime(&PNG[..7]), CoverMime::Jpeg);
    assert_eq!(cover_mime(&[]), CoverMime::Jpeg);
    let mut almost = PNG;
    almost[7] = 0x0B;
    assert_eq!(cover_mime(&almost), CoverMime::Jpeg);
}

#[test]
fn tag_values_of_a_record() {
    let meta = NcmMetadata::from_decrypted(META).unwrap();
    let tags = tag_values(&meta, Some(&PNG));
    assert_eq!(tags.title, "Test");
    assert_eq!(tags.artist, "X / Y");
    assert_eq!(tags.album, "A");
    assert_eq!(tags.cover.unwrap().mime, CoverMime::Png);
    assert!(tag_values(&meta, None).cover.is_none());
}

#[test]
fn output_name_joins_stem_and_extension() {
    assert_eq!(output_name("song", AudioFormat::Mp3), "song.mp3");
    assert_eq!(output_name("", AudioFormat::Flac), ".flac");
}

#[test]
fn tag_slot_prefers_the_primary_tag() {
    assert_eq!(choose_tag_slot(true, true).unwrap(), TagSlot::Primary);
    assert_eq!(choose_tag_slot(true, false).unwrap(), TagSlot::Primary);
    assert_eq!(choose_tag_slot(false, true).unwrap(), TagSlot::First);
    match choose_tag_slot(false, false) {
        Err(NcmError::Tag(text)) => assert_eq!(text, "no tag found in file"),
        other => panic!("{:?}", other),
    }
}

#[test]
fn ncm_file_names() {
    for name in ["a.ncm", "song.mp3.ncm", "..ncm", "\u{6b4c}.ncm", " .ncm"] {
        assert!(is_ncm_file_name(name), "{}", name);
    }
    for name in [".ncm", "ncm", "a.NCM", "a.ncm ", "a.ncmx", "a.nc", "", "a.ncm.mp3"] {
        assert!(!is_ncm_file_name(name), "{}", name);
    }
}
