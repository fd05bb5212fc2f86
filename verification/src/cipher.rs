//! Cipher primitives: AES-128-ECB unwrapping of the embedded secrets, and
//! the modified RC4 used for the audio payload.

use crate::error::NcmError;
use aes::Aes128;
use ecb::cipher::block_padding::{Pkcs7, UnpadError};
use ecb::cipher::{BlockDecryptMut, KeyInit};
use vstd::arithmetic::div_mod::{lemma_fundamental_div_mod, lemma_fundamental_div_mod_converse};
use vstd::prelude::*;

verus! {

/// The error of `block-padding` for a plaintext whose padding is malformed.
#[verifier::external_type_specification]
#[verifier::external_body]
pub struct ExUnpadError(UnpadError);

/// A message with its PKCS#7 padding: 1 to 16 bytes behind it, each of which
/// holds their number, so that the whole is a multiple of 16 bytes long.
pub open spec fn pkcs7_pad(message: Seq<u8>) -> Seq<u8> {
    let n = 16 - message.len() % 16;
    message + Seq::new(n as nat, |i: int| n as u8)
}

/// A padded message without its PKCS#7 padding. The padding is valid where
/// the message is some blocks of 16 bytes and its last byte, a number from
/// 1 to 16, says how many bytes from the end on hold that number.
pub open spec fn pkcs7_strip(padded: Seq<u8>) -> Option<Seq<u8>> {
    if padded.len() == 0 || padded.len() % 16 != 0 {
        None
    } else {
        let n = padded.last() as int;
        if 1 <= n <= 16 && (forall|i: int|
            padded.len() - n <= i < padded.len() ==> padded[i] == n) {
            Some(padded.take(padded.len() - n))
        } else {
            None
        }
    }
}

/// Padding a message and taking the padding off again gives the message
/// back.
pub proof fn lemma_pkcs7_round_trip(message: Seq<u8>)
    ensures
        pkcs7_strip(pkcs7_pad(message)) == Some(message),
        pkcs7_pad(message).len() == message.len() + 16 - message.len() % 16,
{
    let padded = pkcs7_pad(message);
    let n = 16 - message.len() % 16;
    assert(padded.len() == message.len() + n);
    assert(padded.last() == n as u8);
    assert(padded.take(padded.len() - n) =~= message);
}

/// What AES-128 in ECB mode decrypts the blocks of `data` to under `key`,
/// each block of 16 bytes by itself, with the padding still on.
pub uninterp spec fn aes128_ecb_blocks(key: Seq<u8>, data: Seq<u8>) -> Seq<u8>;

/// What AES-128 in ECB mode with PKCS#7 padding makes of the ciphertext
/// `data` under `key`: the decrypted blocks without their padding, or `None`
/// where the ciphertext is empty or no whole number of blocks, or the
/// padding is not valid.
pub open spec fn aes128_ecb_pkcs7(key: Seq<u8>, data: Seq<u8>) -> Option<Seq<u8>> {
    if data.len() == 0 || data.len() % 16 != 0 {
        None
    } else {
        pkcs7_strip(aes128_ecb_blocks(key, data))
    }
}

/// A ciphertext whose blocks decrypt to a message with its padding decrypts
/// to the message: encrypting a padded message and decrypting the result
/// gives the message back.
pub proof fn lemma_ecb_round_trip(key: Seq<u8>, message: Seq<u8>, ciphertext: Seq<u8>)
    requires
        ciphertext.len() == pkcs7_pad(message).len(),
        aes128_ecb_blocks(key, ciphertext) == pkcs7_pad(message),
    ensures
        aes128_ecb_pkcs7(key, ciphertext) == Some(message),
{
    lemma_pkcs7_round_trip(message);
}

/// `decrypt_padded_mut::<Pkcs7>` of an `ecb::Decryptor<Aes128>`, on a copy of
/// `data`. The call fails on an input that is empty or no whole number of
/// blocks. Else it decrypts the blocks, which are as long as the input, and
/// takes the PKCS#7 padding off, or fails where that is not valid.
#[verifier::external_body]
fn ecb_decrypt_padded(key: &[u8; 16], data: &[u8]) -> (res: Result<Vec<u8>, UnpadError>)
    ensures
        match res {
            Ok(plain) => {
                &&& aes128_ecb_pkcs7(key@, data@) == Some(plain@)
                &&& aes128_ecb_blocks(key@, data@).len() == data@.len()
            },
            Err(_) => aes128_ecb_pkcs7(key@, data@) is None,
        },
{
    let mut buf = data.to_vec();
    ecb::Decryptor::<Aes128>::new(key.into()).decrypt_padded_mut::<Pkcs7>(&mut buf).map(
        <[u8]>::to_vec,
    )
}

/// The `Display` text of an `UnpadError`, which is always "Unpad Error".
#[verifier::external_body]
fn unpad_error_text(e: &UnpadError) -> (text: String)
    ensures
        text@ == "Unpad Error"@,
{
    e.to_string()
}

/// AES-128-ECB decryption with PKCS#7 unpadding.
///
/// Fails with `Decrypt` exactly where the ciphertext has no plaintext: its
/// length is zero or no multiple of 16, or the padding of the decrypted
/// blocks is not valid. The plaintext is 1 to 16 bytes shorter than the
/// ciphertext.
pub fn aes128_ecb_decrypt(key: &[u8; 16], data: &[u8]) -> (res: Result<Vec<u8>, NcmError>)
    ensures
        match res {
            Ok(plain) => aes128_ecb_pkcs7(key@, data@) == Some(plain@),
            Err(e) => {
                &&& aes128_ecb_pkcs7(key@, data@) is None
                &&& e matches NcmError::Decrypt(text) && text@ == "Unpad Error"@
            },
        },
        data@.len() == 0 || data@.len() % 16 != 0 ==> res is Err,
        res matches Ok(plain) ==> plain@.len() < data@.len() <= plain@.len() + 16,
{
    match ecb_decrypt_padded(key, data) {
        Ok(plain) => Ok(plain),
        Err(e) => Err(NcmError::Decrypt(unpad_error_text(&e))),
    }
}

/// The S-box before any key byte is mixed in: `S[i] = i`.
pub open spec fn identity_box() -> Seq<u8> {
    Seq::new(256, |i: int| i as u8)
}

/// One round of the key schedule at index `i`: the slots `i` and `c` trade
/// places, where `c` is the sum of `S[i]`, the previous `c` and the key byte,
/// modulo 256. Yields the new box and the new `c`.
pub open spec fn ksa_step(sbox: Seq<u8>, last: u8, key_byte: u8, i: int) -> (Seq<u8>, u8) {
    let swap = sbox[i];
    let c = ((swap + last + key_byte) % 256) as u8;
    (sbox.update(i, sbox[c as int]).update(c as int, swap), c)
}

/// The box and the running byte after the first `n` rounds of the key
/// schedule. Round `k` uses key byte `k mod L`.
pub open spec fn ksa_rounds(key: Seq<u8>, n: nat) -> (Seq<u8>, u8)
    decreases n,
{
    if n == 0 {
        (identity_box(), 0u8)
    } else {
        let prev = ksa_rounds(key, (n - 1) as nat);
        ksa_step(prev.0, prev.1, key[(n - 1) % (key.len() as int)], n - 1)
    }
}

/// The S-box that the key schedule produces for `key`.
pub open spec fn rc4_ksa_spec(key: Seq<u8>) -> Seq<u8> {
    ksa_rounds(key, 256).0
}

/// Every byte value occurs exactly once among the 256 slots.
pub open spec fn is_permutation(s: Seq<u8>) -> bool {
    &&& s.len() == 256
    &&& forall|i: int, j: int| 0 <= i < j < 256 ==> s[i] != s[j]
    &&& forall|v: u8| #[trigger] s.contains(v)
}

/// The keystream byte at stream position `offset`. It reads the box and
/// never changes it, so each position stands on its own.
pub open spec fn rc4_stream_byte_spec(key_box: Seq<u8>, offset: nat) -> u8 {
    let j = (offset as int + 1) % 256;
    let jv = key_box[j] as int;
    key_box[(jv + key_box[(jv + j) % 256]) % 256]
}

/// A round of the key schedule keeps a permutation a permutation: it only
/// makes two slots trade places.
pub proof fn lemma_ksa_step_permutation(sbox: Seq<u8>, last: u8, key_byte: u8, i: int)
    requires
        is_permutation(sbox),
        0 <= i < 256,
    ensures
        is_permutation(ksa_step(sbox, last, key_byte, i).0),
{
    let c = ksa_step(sbox, last, key_byte, i).1 as int;
    let next = ksa_step(sbox, last, key_byte, i).0;
    assert forall|v: u8| #[trigger] next.contains(v) by {
        assert(sbox.contains(v));
        let k = choose|k: int| 0 <= k < sbox.len() && sbox[k] == v;
        let moved = if k == i {
            c
        } else if k == c {
            i
        } else {
            k
        };
        assert(next[moved] == v);
    }
}

/// After any number of rounds the box is a permutation of the byte values.
pub proof fn lemma_ksa_rounds_permutation(key: Seq<u8>, n: nat)
    requires
        n <= 256,
    ensures
        is_permutation(ksa_rounds(key, n).0),
    decreases n,
{
    if n == 0 {
        let id = identity_box();
        assert forall|v: u8| #[trigger] id.contains(v) by {
            assert(id[v as int] == v);
        }
    } else {
        lemma_ksa_rounds_permutation(key, (n - 1) as nat);
        let prev = ksa_rounds(key, (n - 1) as nat);
        lemma_ksa_step_permutation(prev.0, prev.1, key[(n - 1) % (key.len() as int)], n - 1);
    }
}

/// What the key schedule yields is a permutation of `0..=255`, whatever the
/// key.
pub proof fn lemma_ksa_permutation(key: Seq<u8>)
    ensures
        is_permutation(rc4_ksa_spec(key)),
{
    lemma_ksa_rounds_permutation(key, 256);
}

/// Two runs of the key schedule on one key yield one and the same S-box, and
/// it is a permutation.
pub proof fn lemma_ksa_twice(key: Seq<u8>, first: [u8; 256], second: [u8; 256])
    requires
        first@ == rc4_ksa_spec(key),
        second@ == rc4_ksa_spec(key),
    ensures
        first == second,
        is_permutation(first@),
{
    lemma_ksa_permutation(key);
    assert(first@ =~= second@);
}

/// Two reads of the keystream at one position of one S-box yield one and
/// the same byte: the byte depends on the box and the position alone, and a
/// read leaves the box as it is.
pub proof fn lemma_stream_byte_twice(key_box: Seq<u8>, offset: nat, first: u8, second: u8)
    requires
        first == rc4_stream_byte_spec(key_box, offset),
        second == rc4_stream_byte_spec(key_box, offset),
    ensures
        first == second,
{
}

/// The keystream repeats after 256 positions: two positions that agree
/// modulo 256 have the same byte.
pub proof fn lemma_stream_byte_period(key_box: Seq<u8>, a: nat, b: nat)
    requires
        a % 256 == b % 256,
    ensures
        rc4_stream_byte_spec(key_box, a) == rc4_stream_byte_spec(key_box, b),
{
    assert((a as int + 1) % 256 == (b as int + 1) % 256);
}

/// Stepping a counter that wraps at `d` keeps it equal to the round number
/// modulo `d`.
proof fn lemma_mod_successor(x: int, d: int)
    requires
        0 <= x,
        0 < d,
    ensures
        (x + 1) % d == if x % d + 1 == d {
            0
        } else {
            x % d + 1
        },
{
    lemma_fundamental_div_mod(x, d);
    let q = x / d;
    let r = x % d;
    if r + 1 == d {
        assert(x + 1 == (q + 1) * d + 0) by (nonlinear_arith)
            requires
                x == d * q + r,
                r + 1 == d,
        ;
        lemma_fundamental_div_mod_converse(x + 1, d, q + 1, 0);
    } else {
        assert(x + 1 == q * d + (r + 1)) by (nonlinear_arith)
            requires
                x == d * q + r,
        ;
        lemma_fundamental_div_mod_converse(x + 1, d, q, r + 1);
    }
}

/// RC4 key schedule: builds the 256-byte S-box from a key that is not empty.
pub fn rc4_ksa(key: &[u8]) -> (sbox: [u8; 256])
    requires
        key@.len() > 0,
    ensures
        sbox@ == rc4_ksa_spec(key@),
        is_permutation(sbox@),
{
    let mut sbox: [u8; 256] = [0u8; 256];
    let mut n: usize = 0;
    while n < 256
        invariant
            n <= 256,
            forall|k: int| 0 <= k < n ==> sbox@[k] == k as u8,
        decreases 256 - n,
    {
        sbox[n] = n as u8;
        n += 1;
    }
    assert(sbox@ =~= identity_box());

    let key_len: usize = key.len();
    let mut last_byte: u8 = 0;
    let mut key_offset: usize = 0;
    let mut i: usize = 0;
    while i < 256
        invariant
            i <= 256,
            key_len == key@.len(),
            key_len > 0,
            key_offset == i % key_len,
            (sbox@, last_byte) == ksa_rounds(key@, i as nat),
        decreases 256 - i,
    {
        let swap: u8 = sbox[i];
        let c: u8 = swap.wrapping_add(last_byte).wrapping_add(key[key_offset]);
        assert(c == (swap + last_byte + key@[key_offset as int]) % 256);
        key_offset += 1;
        if key_offset >= key_len {
            key_offset = 0;
        }
        proof {
            lemma_mod_successor(i as int, key_len as int);
        }
        let moved: u8 = sbox[c as usize];
        sbox[i] = moved;
        sbox[c as usize] = swap;
        last_byte = c;
        i += 1;
    }
    proof {
        lemma_ksa_permutation(key@);
    }
    sbox
}

/// The low eight bits of `x`.
fn low_byte(x: usize) -> (r: usize)
    ensures
        r == x % 256,
{
    let r: usize = x & 0xff;
    assert(r == x % 256) by (bit_vector)
        requires
            r == x & 0xff,
    ;
    r
}

/// Keystream byte of the modified RC4 at position `offset`.
pub fn rc4_stream_byte(key_box: &[u8; 256], offset: usize) -> (b: u8)
    ensures
        b == rc4_stream_byte_spec(key_box@, offset as nat),
{
    let j: usize = low_byte(low_byte(offset) + 1);
    let jv: usize = key_box[j] as usize;
    let k: usize = key_box[low_byte(jv + j)] as usize;
    key_box[low_byte(jv + k)]
}

/// `data` with each byte XORed against the keystream, the first byte at
/// stream position `start`.
pub open spec fn xor_keystream_spec(key_box: Seq<u8>, start: nat, data: Seq<u8>) -> Seq<u8> {
    Seq::new(data.len(), |i: int| data[i] ^ rc4_stream_byte_spec(key_box, (start + i) as nat))
}

/// Decrypting a stream in two pieces gives what decrypting it in one piece
/// gives: the second piece only has to start where the first one ended.
pub proof fn lemma_keystream_chunking(key_box: Seq<u8>, start: nat, a: Seq<u8>, b: Seq<u8>)
    ensures
        xor_keystream_spec(key_box, start, a + b) == xor_keystream_spec(key_box, start, a)
            + xor_keystream_spec(key_box, start + a.len(), b),
{
    assert(xor_keystream_spec(key_box, start, a + b) =~= xor_keystream_spec(key_box, start, a)
        + xor_keystream_spec(key_box, start + a.len(), b));
}

/// The pieces of a stream, one behind the other.
pub open spec fn joined(pieces: Seq<Seq<u8>>) -> Seq<u8>
    decreases pieces.len(),
{
    if pieces.len() == 0 {
        Seq::empty()
    } else {
        joined(pieces.drop_last()) + pieces.last()
    }
}

/// What decrypting a stream piece by piece gives: each piece XORed against
/// the keystream from the position where the pieces before it end.
pub open spec fn decrypted_pieces(key_box: Seq<u8>, pieces: Seq<Seq<u8>>) -> Seq<u8>
    decreases pieces.len(),
{
    if pieces.len() == 0 {
        Seq::empty()
    } else {
        decrypted_pieces(key_box, pieces.drop_last()) + xor_keystream_spec(
            key_box,
            joined(pieces.drop_last()).len(),
            pieces.last(),
        )
    }
}

/// However a stream is cut into pieces, decrypting it piece by piece gives
/// what decrypting it in one piece gives.
pub proof fn lemma_chunk_invariance(key_box: Seq<u8>, pieces: Seq<Seq<u8>>)
    ensures
        decrypted_pieces(key_box, pieces) == xor_keystream_spec(key_box, 0, joined(pieces)),
    decreases pieces.len(),
{
    if pieces.len() == 0 {
        assert(xor_keystream_spec(key_box, 0, Seq::<u8>::empty()) =~= Seq::<u8>::empty());
    } else {
        lemma_chunk_invariance(key_box, pieces.drop_last());
        lemma_keystream_chunking(key_box, 0, joined(pieces.drop_last()), pieces.last());
    }
}

/// XORing twice against the keystream at one position gives the data back:
/// what encrypts also decrypts, byte for byte.
pub proof fn lemma_keystream_involution(key_box: Seq<u8>, start: nat, data: Seq<u8>)
    ensures
        xor_keystream_spec(key_box, start, xor_keystream_spec(key_box, start, data)) == data,
{
    let once = xor_keystream_spec(key_box, start, data);
    let twice = xor_keystream_spec(key_box, start, once);
    assert forall|i: int| 0 <= i < data.len() implies twice[i] == data[i] by {
        let d = data[i];
        let k = rc4_stream_byte_spec(key_box, (start + i) as nat);
        assert((d ^ k) ^ k == d) by (bit_vector);
    }
    assert(twice =~= data);
}

/// Only the position modulo 256 tells in the keystream.
pub proof fn lemma_keystream_phase(key_box: Seq<u8>, start: nat, data: Seq<u8>)
    ensures
        xor_keystream_spec(key_box, start % 256, data) == xor_keystream_spec(key_box, start, data),
{
    let low = xor_keystream_spec(key_box, start % 256, data);
    let high = xor_keystream_spec(key_box, start, data);
    assert forall|i: int| 0 <= i < data.len() implies low[i] == high[i] by {
        lemma_stream_byte_period(key_box, (start % 256 + i) as nat, (start + i) as nat);
    }
    assert(low =~= high);
}

/// XORs `buf` in place against the keystream, the first byte at stream
/// position `start`.
pub fn xor_keystream(key_box: &[u8; 256], start: usize, buf: &mut Vec<u8>)
    ensures
        final(buf)@ == xor_keystream_spec(key_box@, start as nat, old(buf)@),
{
    let n: usize = buf.len();
    let mut phase: usize = start % 256;
    let mut i: usize = 0;
    while i < n
        invariant
            i <= n,
            n == buf@.len(),
            n == old(buf)@.len(),
            phase == (start + i) % 256,
            forall|k: int|
                0 <= k < i ==> buf@[k] == old(buf)@[k] ^ rc4_stream_byte_spec(
                    key_box@,
                    (start + k) as nat,
                ),
            forall|k: int| i <= k < n ==> buf@[k] == old(buf)@[k],
        decreases n - i,
    {
        let b: u8 = buf[i] ^ rc4_stream_byte(key_box, phase);
        buf[i] = b;
        phase = (phase + 1) % 256;
        i += 1;
    }
    assert(buf@ =~= xor_keystream_spec(key_box@, start as nat, old(buf)@));
}

/// The decrypting end of an audio stream: the S-box, and how far the stream
/// has come, modulo 256. Pieces of the stream are fed in order, each as long
/// as the caller likes.
pub struct AudioStream {
    pub key_box: [u8; 256],
    /// The stream position of the next byte, modulo 256.
    pub phase: usize,
}

impl AudioStream {
    /// A stream at position 0.
    pub fn new(key_box: [u8; 256]) -> (stream: AudioStream)
        ensures
            stream.key_box == key_box,
            stream.phase == 0,
    {
        AudioStream { key_box, phase: 0 }
    }

    /// Decrypts the next piece of the stream in place, and moves on by its
    /// length.
    pub fn decrypt(&mut self, piece: &mut Vec<u8>)
        ensures
            final(self).key_box == old(self).key_box,
            final(self).phase == (old(self).phase + old(piece)@.len()) % 256,
            final(piece)@ == xor_keystream_spec(
                old(self).key_box@,
                old(self).phase as nat,
                old(piece)@,
            ),
    {
        xor_keystream(&self.key_box, self.phase, piece);
        self.phase = (self.phase % 256 + piece.len() % 256) % 256;
    }
}

/// Feeding a stream two pieces, one after the other, decrypts what feeding
/// it both in one piece decrypts.
pub proof fn lemma_stream_pieces(key_box: Seq<u8>, phase: nat, a: Seq<u8>, b: Seq<u8>)
    ensures
        xor_keystream_spec(key_box, phase, a + b) == xor_keystream_spec(key_box, phase, a)
            + xor_keystream_spec(key_box, (phase + a.len()) % 256, b),
{
    lemma_keystream_chunking(key_box, phase, a, b);
    lemma_keystream_phase(key_box, phase + a.len(), b);
}

} // verus!
