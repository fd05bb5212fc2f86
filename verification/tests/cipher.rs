use aes::Aes128;
use ecb::cipher::block_padding::{NoPadding, Pkcs7};
use ecb::cipher::{BlockEncryptMut, KeyInit};
use ncmdump::cipher::xor_keystream;
use ncmdump::{aes128_ecb_decrypt, rc4_ksa, rc4_stream_byte, NcmError};

fn ecb_encrypt(key: &[u8; 16], plain: &[u8]) -> Vec<u8> {
    let mut buf = vec![0u8; plain.len() + 16];
    buf[..plain.len()].copy_from_slice(plain);
    ecb::Encryptor::<Aes128>::new(key.into())
        .encrypt_padded_mut::<Pkcs7>(&mut buf, plain.len())
        .unwrap()
        .to_vec()
}

fn ecb_encrypt_blocks(key: &[u8; 16], blocks: &[u8]) -> Vec<u8> {
    let mut buf = blocks.to_vec();
    ecb::Encryptor::<Aes128>::new(key.into())
        .encrypt_padded_mut::<NoPadding>(&mut buf, blocks.len())
        .unwrap()
        .to_vec()
}

#[test]
fn aes_takes_valid_padding_off() {
    let key: [u8; 16] = *b"0123456789abcdef";
    let mut blocks = vec![0xABu8; 32];
    blocks[31] = 1;
    let plain = aes128_ecb_decrypt(&key, &ecb_encrypt_blocks(&key, &blocks)).unwrap();
    assert_eq!(plain, blocks[..31].to_vec());
    for n in 2..=16u8 {
        let mut blocks = vec![0xABu8; 32];
        for b in &mut blocks[32 - n as usize..] {
            *b = n;
        }
        let plain = aes128_ecb_decrypt(&key, &ecb_encrypt_blocks(&key, &blocks)).unwrap();
        assert_eq!(plain, vec![0xABu8; 32 - n as usize]);
    }
    let plain = aes128_ecb_decrypt(&key, &ecb_encrypt_blocks(&key, &[16u8; 16])).unwrap();
    assert!(plain.is_empty());
}

#[test]
fn aes_rejects_padding_that_is_not_valid() {
    let key: [u8; 16] = *b"0123456789abcdef";
    let mut zero = vec![0xABu8; 16];
    zero[15] = 0;
    let mut too_long = vec![17u8; 32];
    too_long[0] = 1;
    let mut broken = vec![0xABu8; 16];
    broken[15] = 3;
    broken[14] = 3;
    broken[13] = 2;
    let mut far = vec![16u8; 16];
    far[0] = 15;
    for blocks in [zero, too_long, broken, far, vec![0xFFu8; 16]] {
        let err = aes128_ecb_decrypt(&key, &ecb_encrypt_blocks(&key, &blocks)).unwrap_err();
        assert!(matches!(err, NcmError::Decrypt(ref text) if text == "Unpad Error"));
    }
}

#[test]
fn test_rc4_ksa_deterministic() {
    let key = b"hello";
    let box1 = rc4_ksa(key);
    let box2 = rc4_ksa(key);
    assert_eq!(box1, box2);
}

#[test]
fn test_rc4_stream_byte_deterministic() {
    let key = b"testkey";
    let sbox = rc4_ksa(key);
    let b1 = rc4_stream_byte(&sbox, 0);
    let b2 = rc4_stream_byte(&sbox, 0);
    assert_eq!(b1, b2);
}

#[test]
fn test_aes128_ecb_roundtrip() {
    let key: [u8; 16] = *b"0123456789abcdef";
    let plaintext = b"hello world!!!!!";
    let encrypted = ecb_encrypt(&key, plaintext);
    let decrypted = aes128_ecb_decrypt(&key, &encrypted).unwrap();
    assert_eq!(&decrypted, plaintext);
}

#[test]
fn ksa_known_values() {
    let sbox = rc4_ksa(b"hello");
    assert_eq!(
        &sbox[..16],
        &[124, 227, 177, 171, 214, 169, 219, 105, 38, 82, 199, 13, 175, 40, 192, 119]
    );
    assert_eq!(&sbox[250..], &[228, 61, 149, 138, 225, 98]);
    let zero = rc4_ksa(&[0]);
    assert_eq!(&zero[..8], &[0, 35, 3, 43, 9, 11, 65, 229]);
    let test = rc4_ksa(b"testkey");
    assert_eq!(&test[..8], &[10, 121, 180, 198, 53, 70, 69, 51]);
}

#[test]
fn ksa_yields_a_permutation() {
    for key in [&b"hello"[..], &b"testkey"[..], &[0u8][..], &[255u8; 300][..]] {
        let sbox = rc4_ksa(key);
        let mut seen = [false; 256];
        for b in sbox {
            assert!(!seen[b as usize]);
            seen[b as usize] = true;
        }
        assert!(seen.iter().all(|s| *s));
    }
}

#[test]
fn stream_byte_known_values() {
    let sbox = rc4_ksa(b"hello");
    let head: Vec<u8> = (0..8).map(|n| rc4_stream_byte(&sbox, n)).collect();
    assert_eq!(head, vec![255, 63, 148, 107, 103, 243, 164, 166]);
    assert_eq!(rc4_stream_byte(&sbox, 255), 251);
    assert_eq!(rc4_stream_byte(&sbox, 256), 255);
    assert_eq!(rc4_stream_byte(&sbox, usize::MAX), 251);
    let test = rc4_ksa(b"testkey");
    let head: Vec<u8> = (0..4).map(|n| rc4_stream_byte(&test, n)).collect();
    assert_eq!(head, vec![240, 255, 41, 85]);
}

#[test]
fn stream_byte_leaves_the_box_alone() {
    let sbox = rc4_ksa(b"hello");
    let before = sbox;
    let first = rc4_stream_byte(&sbox, 12345);
    let again = rc4_stream_byte(&sbox, 12345);
    assert_eq!(first, again);
    assert_eq!(sbox, before);
}

#[test]
fn keystream_xor_by_position() {
    let sbox = rc4_ksa(b"hello");
    let mut buf = vec![0u8; 8];
    xor_keystream(&sbox, 0, &mut buf);
    assert_eq!(buf, vec![255, 63, 148, 107, 103, 243, 164, 166]);
    let mut tail = vec![0xffu8; 2];
    xor_keystream(&sbox, 6, &mut tail);
    assert_eq!(tail, vec![164 ^ 0xff, 166 ^ 0xff]);
    let mut none: Vec<u8> = Vec::new();
    xor_keystream(&sbox, 7, &mut none);
    assert!(none.is_empty());
}

#[test]
fn keystream_xor_in_pieces() {
    let sbox = rc4_ksa(b"testkey");
    let data: Vec<u8> = (0..1000u32).map(|i| (i * 7 % 251) as u8).collect();
    let mut whole = data.clone();
    xor_keystream(&sbox, 5, &mut whole);
    for cut in [0usize, 1, 255, 256, 999, 1000] {
        let mut a = data[..cut].to_vec();
        let mut b = data[cut..].to_vec();
        xor_keystream(&sbox, 5, &mut a);
        xor_keystream(&sbox, 5 + cut, &mut b);
        a.extend_from_slice(&b);
        assert_eq!(a, whole);
    }
}

#[test]
fn aes_roundtrip_of_other_lengths() {
    let key: [u8; 16] = *b"0123456789abcdef";
    for len in [0usize, 1, 15, 16, 17, 31, 32, 100] {
        let plain: Vec<u8> = (0..len).map(|i| (i * 3) as u8).collect();
        let encrypted = ecb_encrypt(&key, &plain);
        assert_eq!(encrypted.len(), (len / 16 + 1) * 16);
        assert_eq!(aes128_ecb_decrypt(&key, &encrypted).unwrap(), plain);
    }
}

#[test]
fn aes_rejects_partial_block() {
    let key: [u8; 16] = *b"0123456789abcdef";
    let err = aes128_ecb_decrypt(&key, &[0u8; 15]).unwrap_err();
    assert!(matches!(err, NcmError::Decrypt(ref text) if text == "Unpad Error"));
}

#[test]
fn aes_rejects_empty_input() {
    let key: [u8; 16] = *b"0123456789abcdef";
    let err = aes128_ecb_decrypt(&key, &[]).unwrap_err();
    assert!(matches!(err, NcmError::Decrypt(_)));
}

#[test]
fn aes_rejects_bad_padding() {
    let key: [u8; 16] = *b"0123456789abcdef";
    let other: [u8; 16] = *b"fedcba9876543210";
    let encrypted = ecb_encrypt(&key, b"some plaintext that is long enough");
    let mut failures = 0;
    for i in 0..16u8 {
        let mut wrong = other;
        wrong[0] = i;
        if aes128_ecb_decrypt(&wrong, &encrypted).is_err() {
            failures += 1;
        }
    }
    assert!(failures > 0);
}

#[test]
fn audio_stream_decrypts_piece_by_piece() {
    let sbox = rc4_ksa(b"testkey");
    let data: Vec<u8> = (0..2000u32).map(|i| (i * 11 % 256) as u8).collect();
    let mut whole = data.clone();
    xor_keystream(&sbox, 0, &mut whole);
    for size in [1usize, 2, 255, 256, 257, 700, 2000, 5000] {
        let mut stream = ncmdump::AudioStream::new(sbox);
        let mut out = Vec::new();
        for piece in data.chunks(size) {
            let mut piece = piece.to_vec();
            stream.decrypt(&mut piece);
            out.extend_from_slice(&piece);
        }
        assert_eq!(out, whole);
        assert_eq!(stream.phase, 2000 % 256);
        assert_eq!(stream.key_box, sbox);
    }
}

#[test]
fn keystream_xor_twice_gives_the_data_back() {
    let sbox = rc4_ksa(b"hello");
    let data: Vec<u8> = (0..600u32).map(|i| (i % 256) as u8).collect();
    let mut buf = data.clone();
    xor_keystream(&sbox, 77, &mut buf);
    assert_ne!(buf, data);
    xor_keystream(&sbox, 77, &mut buf);
    assert_eq!(buf, data);
}

#[test]
fn keystream_xor_near_the_end_of_the_positions() {
    let sbox = rc4_ksa(b"hello");
    let mut high = vec![0u8; 600];
    xor_keystream(&sbox, usize::MAX - 10, &mut high);
    let mut low = vec![0u8; 600];
    xor_keystream(&sbox, 245, &mut low);
    assert_eq!(high, low);
}
