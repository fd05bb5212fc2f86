//! The WEAPI request encryption: two passes of AES-128-CBC and one of RSA.
//!
//! The request text is encrypted under a preset key and written in base64;
//! that text is encrypted again under a random key and written in base64:
//! this is `params`. The random key, reversed and read as a number, is raised
//! to the public exponent modulo the server's modulus and written in hex:
//! this is `encSecKey`.

use aes::Aes128;
use base64::Engine;
use cbc::cipher::block_padding::Pkcs7;
use cbc::cipher::{BlockEncryptMut, KeyIvInit};
use num_bigint::BigUint;
use rand::Rng;
use crate::cipher::{lemma_pkcs7_round_trip, pkcs7_pad};
use vstd::arithmetic::power::pow;
use vstd::prelude::*;
use vstd::utf8::{encode_utf8, is_ascii_chars, is_ascii_chars_encode_utf8};

verus! {

/// The initialisation vector of both AES passes: the text `0102030405060708`.
pub const IV: [u8; 16] = [
    0x30, 0x31, 0x30, 0x32, 0x30, 0x33, 0x30, 0x34, 0x30, 0x35, 0x30, 0x36, 0x30, 0x37, 0x30, 0x38,
];

/// The key of the first AES pass: the text `0CoJUm6Qyw8W8jud`.
pub const PRESET_KEY: [u8; 16] = [
    0x30, 0x43, 0x6F, 0x4A, 0x55, 0x6D, 0x36, 0x51, 0x79, 0x77, 0x38, 0x57, 0x38, 0x6A, 0x75, 0x64,
];

/// The server's RSA modulus of 1024 bits, most significant byte first.
pub const RSA_MODULUS: [u8; 128] = [
    0xE0, 0xB5, 0x09, 0xF6, 0x25, 0x9D, 0xF8, 0x64, 0x2D, 0xBC, 0x35, 0x66, 0x29, 0x01, 0x47, 0x7D,
    0xF2, 0x26, 0x77, 0xEC, 0x15, 0x2B, 0x5F, 0xF6, 0x8A, 0xCE, 0x61, 0x5B, 0xB7, 0xB7, 0x25, 0x15,
    0x2B, 0x3A, 0xB1, 0x7A, 0x87, 0x6A, 0xEA, 0x8A, 0x5A, 0xA7, 0x6D, 0x2E, 0x41, 0x76, 0x29, 0xEC,
    0x4E, 0xE3, 0x41, 0xF5, 0x61, 0x35, 0xFC, 0xCF, 0x69, 0x52, 0x80, 0x10, 0x4E, 0x03, 0x12, 0xEC,
    0xBD, 0xA9, 0x25, 0x57, 0xC9, 0x38, 0x70, 0x11, 0x4A, 0xF6, 0xC9, 0xD0, 0x5C, 0x4F, 0x7F, 0x0C,
    0x36, 0x85, 0xB7, 0xA4, 0x6B, 0xEE, 0x25, 0x59, 0x32, 0x57, 0x5C, 0xCE, 0x10, 0xB4, 0x24, 0xD8,
    0x13, 0xCF, 0xE4, 0x87, 0x5D, 0x3E, 0x82, 0x04, 0x7B, 0x97, 0xDD, 0xEF, 0x52, 0x74, 0x1D, 0x54,
    0x6B, 0x8E, 0x28, 0x9D, 0xC6, 0x93, 0x5B, 0x3E, 0xCE, 0x04, 0x62, 0xDB, 0x0A, 0x22, 0xB8, 0xE7,
];

/// The server's RSA public exponent.
pub const RSA_EXPONENT: u32 = 65537;

/// The bytes that a random key is drawn from: the letters and the digits.
pub const CHARSET: [u8; 62] = [
    0x61, 0x62, 0x63, 0x64, 0x65, 0x66, 0x67, 0x68, 0x69, 0x6A, 0x6B, 0x6C, 0x6D, 0x6E, 0x6F, 0x70,
    0x71, 0x72, 0x73, 0x74, 0x75, 0x76, 0x77, 0x78, 0x79, 0x7A, 0x41, 0x42, 0x43, 0x44, 0x45, 0x46,
    0x47, 0x48, 0x49, 0x4A, 0x4B, 0x4C, 0x4D, 0x4E, 0x4F, 0x50, 0x51, 0x52, 0x53, 0x54, 0x55, 0x56,
    0x57, 0x58, 0x59, 0x5A, 0x30, 0x31, 0x32, 0x33, 0x34, 0x35, 0x36, 0x37, 0x38, 0x39,
];

/// An encrypted request: the two fields of the form that is posted.
#[derive(Debug)]
pub struct WeapiPayload {
    /// The request data after both AES passes, in base64.
    pub params: String,
    /// The AES key of the second pass under the server's RSA key, in hex.
    pub enc_sec_key: String,
}

/// What AES-128 in CBC mode encrypts the blocks of `data` to under `key`,
/// with `iv` before the first block.
pub uninterp spec fn aes128_cbc_blocks(key: Seq<u8>, iv: Seq<u8>, data: Seq<u8>) -> Seq<u8>;

/// What AES-128 in CBC mode with PKCS#7 padding makes of `plain` under
/// `key` and `iv`: the encrypted blocks of the padded message.
pub open spec fn aes128_cbc_pkcs7(key: Seq<u8>, iv: Seq<u8>, plain: Seq<u8>) -> Seq<u8> {
    aes128_cbc_blocks(key, iv, pkcs7_pad(plain))
}

/// The text that the standard base64 alphabet with padding writes for
/// `bytes`.
pub uninterp spec fn base64_standard_text(bytes: Seq<u8>) -> Seq<char>;

/// The length of a message of `n` bytes with its PKCS#7 padding: the next
/// multiple of 16 above `n`.
pub open spec fn padded_len(n: nat) -> nat {
    (n + 16 - n % 16) as nat
}

/// The length of the base64 text of `n` bytes.
pub open spec fn base64_len(n: nat) -> nat {
    4 * ((n + 2) / 3)
}

/// The number that `bytes` write, most significant byte first.
pub open spec fn be_value(bytes: Seq<u8>) -> nat
    decreases bytes.len(),
{
    if bytes.len() == 0 {
        0
    } else {
        be_value(bytes.drop_last()) * 256 + bytes.last() as nat
    }
}

/// The hex digit of a number below 16, in lower case.
pub open spec fn hex_char(digit: nat) -> char {
    if digit < 10 {
        (0x30 + digit) as char
    } else {
        (0x57 + digit) as char
    }
}

/// The hex digits of `n`, without leading zeros; `0` for zero.
pub open spec fn hex_digits(n: nat) -> Seq<char>
    decreases n,
{
    if n < 16 {
        seq![hex_char(n)]
    } else {
        hex_digits(n / 16).push(hex_char(n % 16))
    }
}

/// `text` with as many `fill` before it as bring it to `width` characters.
pub open spec fn left_pad(text: Seq<char>, width: nat, fill: char) -> Seq<char> {
    if text.len() >= width {
        text
    } else {
        Seq::new((width - text.len()) as nat, |i: int| fill) + text
    }
}

/// `base` to the power `exponent` modulo `modulus`, in hex digits, padded
/// with zeros to `width` digits.
pub open spec fn modpow_hex_spec(base: nat, exponent: nat, modulus: nat, width: nat) -> Seq<char> {
    left_pad(hex_digits((pow(base as int, exponent) % (modulus as int)) as nat), width, '0')
}

/// `Encryptor::<Aes128>::encrypt_padded_mut::<Pkcs7>` of `cbc`, on the first
/// `msg_len` bytes of `buf`, which has room for the padding. The call pads
/// the message and encrypts the blocks, which come out as long as they went
/// in.
#[verifier::external_body]
fn cbc_encrypt_padded(key: &[u8; 16], iv: &[u8; 16], buf: Vec<u8>, msg_len: usize) -> (ct: Vec<u8>)
    requires
        msg_len <= buf@.len(),
        padded_len(msg_len as nat) <= buf@.len(),
    ensures
        ct@ == aes128_cbc_blocks(key@, iv@, pkcs7_pad(buf@.take(msg_len as int))),
        ct@.len() == pkcs7_pad(buf@.take(msg_len as int)).len(),
{
    let mut buf = buf;
    let ct = cbc::Encryptor::<Aes128>::new(key.into(), iv.into()).encrypt_padded_mut::<Pkcs7>(
        &mut buf,
        msg_len,
    );
    ct.expect("the buffer has room for the padding").to_vec()
}

/// `Engine::encode` of `base64`'s `STANDARD` engine. The result is the named
/// text: four ASCII characters for every three bytes begun.
#[verifier::external_body]
fn base64_encode(bytes: &[u8]) -> (text: String)
    requires
        base64_len(bytes@.len()) <= usize::MAX,
    ensures
        text@ == base64_standard_text(bytes@),
        text@.len() == base64_len(bytes@.len()),
        is_ascii_chars(text@),
{
    base64::engine::general_purpose::STANDARD.encode(bytes)
}

/// `BigUint::modpow` of `num-bigint`. Base and modulus come in through
/// `BigUint::from_bytes_be`, which reads bytes as a number, most significant
/// byte first; the result goes out through `BigUint`'s `LowerHex`, which
/// writes its hex digits in lower case, here padded on the left with `0` to
/// `width` characters. The call panics on a modulus of zero, and the
/// formatter on a width that does not fit 16 bits.
#[verifier::external_body]
fn modpow_hex(base: &[u8], exponent: u32, modulus: &[u8], width: usize) -> (text: String)
    requires
        be_value(modulus@) > 0,
        width <= u16::MAX,
    ensures
        text@ == modpow_hex_spec(
            be_value(base@),
            exponent as nat,
            be_value(modulus@),
            width as nat,
        ),
{
    let cipher = BigUint::from_bytes_be(base).modpow(
        &BigUint::from(exponent),
        &BigUint::from_bytes_be(modulus),
    );
    format!("{cipher:0>width$x}")
}

/// `Rng::random_range` of `rand`'s thread-local generator, on `0..bound`:
/// some number below `bound`.
#[verifier::external_body]
fn random_below(bound: usize) -> (n: usize)
    requires
        bound > 0,
    ensures
        n < bound,
{
    rand::rng().random_range(0..bound)
}

/// AES-128-CBC encryption with PKCS#7 padding.
pub fn aes_cbc_encrypt(plaintext: &[u8], key: &[u8; 16], iv: &[u8; 16]) -> (ct: Vec<u8>)
    requires
        plaintext@.len() + 16 <= usize::MAX,
    ensures
        ct@ == aes128_cbc_pkcs7(key@, iv@, plaintext@),
        ct@.len() == padded_len(plaintext@.len()),
        ct@.len() > 0,
        ct@.len() % 16 == 0,
{
    let len: usize = plaintext.len();
    let pad_len: usize = 16 - (len % 16);
    let mut buf: Vec<u8> = Vec::with_capacity(len + pad_len);
    let mut i: usize = 0;
    while i < len
        invariant
            i <= len,
            len == plaintext@.len(),
            buf@ == plaintext@.take(i as int),
        decreases len - i,
    {
        buf.push(plaintext[i]);
        assert(plaintext@.take(i as int).push(plaintext@[i as int]) =~= plaintext@.take(i + 1));
        i += 1;
    }
    let mut k: usize = 0;
    while k < pad_len
        invariant
            k <= pad_len,
            buf@.len() == len + k,
            buf@.take(len as int) == plaintext@,
            len == plaintext@.len(),
        decreases pad_len - k,
    {
        let ghost before = buf@;
        buf.push(0);
        assert(buf@.take(len as int) =~= before.take(len as int));
        k += 1;
    }
    proof {
        lemma_pkcs7_round_trip(plaintext@);
    }
    cbc_encrypt_padded(key, iv, buf, len)
}

/// Whether `b` is one of the bytes that a random key is drawn from.
pub open spec fn is_key_byte(b: u8) -> bool {
    CHARSET@.contains(b)
}

/// The key that a run of picks from the letters and digits makes: byte `i`
/// is the letter or digit at index `picks[i]`, and what lies behind the
/// picks is zero.
pub open spec fn key_of_picks_spec(picks: Seq<usize>) -> Seq<u8> {
    Seq::new(
        16,
        |i: int|
            if i < picks.len() {
                CHARSET@[picks[i] as int]
            } else {
                0u8
            },
    )
}

/// The key that a run of picks makes.
pub fn key_of_picks(picks: &Vec<usize>) -> (key: [u8; 16])
    requires
        picks@.len() <= 16,
        forall|i: int| 0 <= i < picks@.len() ==> picks@[i] < 62,
    ensures
        key@ == key_of_picks_spec(picks@),
{
    let mut key: [u8; 16] = [0u8; 16];
    let mut i: usize = 0;
    while i < picks.len()
        invariant
            i <= picks@.len() <= 16,
            forall|k: int| 0 <= k < picks@.len() ==> picks@[k] < 62,
            forall|k: int| 0 <= k < i ==> key@[k] == CHARSET@[picks@[k] as int],
            forall|k: int| i <= k < 16 ==> key@[k] == 0,
        decreases picks@.len() - i,
    {
        key[i] = CHARSET[picks[i]];
        i += 1;
    }
    assert(key@ =~= key_of_picks_spec(picks@));
    key
}

/// A key whose first `len` bytes are drawn at random from the letters and
/// digits; the rest is zero.
pub fn random_key(len: usize) -> (key: [u8; 16])
    requires
        len <= 16,
    ensures
        exists|picks: Seq<usize>|
            {
                &&& picks.len() == len
                &&& forall|i: int| 0 <= i < len ==> picks[i] < 62
                &&& key@ == #[trigger] key_of_picks_spec(picks)
            },
        forall|i: int| 0 <= i < len ==> is_key_byte(#[trigger] key@[i]),
        forall|i: int| len <= i < 16 ==> key@[i] == 0,
{
    let mut picks: Vec<usize> = Vec::new();
    let mut i: usize = 0;
    while i < len
        invariant
            i <= len <= 16,
            picks@.len() == i,
            forall|k: int| 0 <= k < i ==> picks@[k] < 62,
        decreases len - i,
    {
        picks.push(random_below(CHARSET.len()));
        i += 1;
    }
    let key = key_of_picks(&picks);
    assert forall|k: int| 0 <= k < len implies is_key_byte(#[trigger] key@[k]) by {
        assert(CHARSET@[picks@[k] as int] == key@[k]);
    }
    key
}

/// The bytes of the number that RSA encrypts: the key in reverse, behind as
/// many zeros as fill 128 bytes.
pub open spec fn rsa_message(key: Seq<u8>) -> Seq<u8> {
    Seq::new((128 - key.len()) as nat, |i: int| 0u8) + key.reverse()
}

/// `encSecKey` for a key: the RSA message to the public exponent modulo
/// the server's modulus, in 256 hex digits.
pub open spec fn rsa_spec(key: Seq<u8>) -> Seq<char> {
    modpow_hex_spec(
        be_value(rsa_message(key)),
        RSA_EXPONENT as nat,
        be_value(RSA_MODULUS@),
        256,
    )
}

/// A number of `s.len()` bytes is below 256 to that power.
proof fn lemma_be_value_bound(s: Seq<u8>)
    ensures
        be_value(s) < pow(256, s.len()),
    decreases s.len(),
{
    reveal(pow);
    if s.len() > 0 {
        lemma_be_value_bound(s.drop_last());
        assert(pow(256, s.len()) == 256 * pow(256, (s.len() - 1) as nat));
        assert(be_value(s) < 256 * pow(256, (s.len() - 1) as nat)) by (nonlinear_arith)
            requires
                be_value(s) == be_value(s.drop_last()) * 256 + s.last() as nat,
                s.last() < 256,
                be_value(s.drop_last()) < pow(256, (s.len() - 1) as nat),
        ;
    }
}

/// A number below 16 to the power `k` has at most `k` hex digits.
proof fn lemma_hex_digits_len(n: nat, k: nat)
    requires
        k >= 1,
        n < pow(16, k),
    ensures
        1 <= hex_digits(n).len() <= k,
    decreases n,
{
    reveal(pow);
    if n >= 16 {
        assert(pow(16, k) == 16 * pow(16, (k - 1) as nat));
        if k == 1 {
            assert(pow(16, 0) == 1);
        } else {
            assert(n / 16 < pow(16, (k - 1) as nat)) by (nonlinear_arith)
                requires
                    n < 16 * pow(16, (k - 1) as nat),
            ;
            lemma_hex_digits_len(n / 16, (k - 1) as nat);
        }
    }
}

/// `encSecKey` has 256 digits whatever the key.
pub proof fn lemma_rsa_len(key: Seq<u8>)
    ensures
        rsa_spec(key).len() == 256,
{
    let m = be_value(RSA_MODULUS@);
    let c = (pow(be_value(rsa_message(key)) as int, RSA_EXPONENT as nat) % (m as int)) as nat;
    lemma_modulus_positive();
    lemma_be_value_bound(RSA_MODULUS@);
    vstd::arithmetic::power::lemma_pow_multiplies(16, 2, 128);
    assert(pow(16, 2) == 256) by {
        reveal(pow);
        assert(pow(16, 2) == 16 * pow(16, 1));
        assert(pow(16, 1) == 16 * pow(16, 0));
    }
    assert(c < m);
    lemma_hex_digits_len(c, 256);
}

/// The server's modulus is not zero.
proof fn lemma_modulus_positive()
    ensures
        be_value(RSA_MODULUS@) > 0,
{
    assert(RSA_MODULUS@.last() == 0xE7);
}

/// RSA without padding on a key: `encSecKey`.
pub fn rsa_encrypt(key: &[u8; 16]) -> (text: String)
    ensures
        text@ == rsa_spec(key@),
        text@.len() == 256,
{
    let mut padded: Vec<u8> = Vec::new();
    let mut i: usize = 0;
    while i < 112
        invariant
            i <= 112,
            padded@ == Seq::new(i as nat, |k: int| 0u8),
        decreases 112 - i,
    {
        padded.push(0);
        assert(padded@ =~= Seq::new((i + 1) as nat, |k: int| 0u8));
        i += 1;
    }
    let mut j: usize = 0;
    while j < 16
        invariant
            j <= 16,
            padded@ == Seq::new(112, |k: int| 0u8) + key@.reverse().take(j as int),
        decreases 16 - j,
    {
        padded.push(key[15 - j]);
        assert(padded@ =~= Seq::new(112, |k: int| 0u8) + key@.reverse().take(j + 1));
        j += 1;
    }
    assert(padded@ =~= rsa_message(key@));
    proof {
        lemma_modulus_positive();
        lemma_rsa_len(key@);
    }
    modpow_hex(padded.as_slice(), RSA_EXPONENT, RSA_MODULUS.as_slice(), 256)
}

/// The first pass: the request text under the preset key, in base64.
pub open spec fn first_pass(data: Seq<char>) -> Seq<char> {
    base64_standard_text(aes128_cbc_pkcs7(PRESET_KEY@, IV@, encode_utf8(data)))
}

/// `params`: the text of the first pass under the secret key, in base64.
pub open spec fn params_spec(data: Seq<char>, secret_key: Seq<u8>) -> Seq<char> {
    base64_standard_text(aes128_cbc_pkcs7(secret_key, IV@, encode_utf8(first_pass(data))))
}

/// Whether a request text of `n` bytes can be encrypted on this machine:
/// both ciphertexts and both base64 texts have to fit its addresses.
pub open spec fn fits_weapi(n: nat) -> bool {
    base64_len(padded_len(base64_len(padded_len(n)))) <= usize::MAX
}

/// Encrypts a request text under a given secret key.
pub fn weapi_encrypt_with_key(data: &str, secret_key: &[u8; 16]) -> (payload: WeapiPayload)
    requires
        fits_weapi(encode_utf8(data@).len()),
    ensures
        payload.params@ == params_spec(data@, secret_key@),
        payload.enc_sec_key@ == rsa_spec(secret_key@),
        payload.enc_sec_key@.len() == 256,
        payload.params@.len() == base64_len(
            padded_len(base64_len(padded_len(encode_utf8(data@).len()))),
        ),
{
    let pass1 = aes_cbc_encrypt(data.as_bytes(), &PRESET_KEY, &IV);
    let pass1_b64 = base64_encode(pass1.as_slice());
    proof {
        is_ascii_chars_encode_utf8(pass1_b64@);
    }
    let pass2 = aes_cbc_encrypt(pass1_b64.as_str().as_bytes(), secret_key, &IV);
    let params = base64_encode(pass2.as_slice());
    let enc_sec_key = rsa_encrypt(secret_key);
    WeapiPayload { params, enc_sec_key }
}

/// Encrypts a request text under a fresh random key of sixteen letters and
/// digits.
pub fn weapi_encrypt(data: &str) -> (payload: WeapiPayload)
    requires
        fits_weapi(encode_utf8(data@).len()),
    ensures
        exists|key: Seq<u8>|
            {
                &&& key.len() == 16
                &&& forall|i: int| 0 <= i < 16 ==> is_key_byte(#[trigger] key[i])
                &&& payload.params@ == #[trigger] params_spec(data@, key)
                &&& payload.enc_sec_key@ == rsa_spec(key)
            },
        payload.enc_sec_key@.len() == 256,
        payload.params@.len() == base64_len(
            padded_len(base64_len(padded_len(encode_utf8(data@).len()))),
        ),
{
    let secret_key = random_key(16);
    weapi_encrypt_with_key(data, &secret_key)
}

} // verus!
