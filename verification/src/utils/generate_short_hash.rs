//! Symmetric protection of short secrets (passwords, refresh tokens, tenant
//! and client identifiers) before they are stored or handed out.
//!
//! A sealed value is lowercase hex of `len || nonce || ciphertext || tag`:
//! `len` is the nonce length as 8 big-endian bytes, the ciphertext is the
//! plaintext XORed with an HMAC-SHA-256 keystream in counter mode, and the tag
//! is HMAC-SHA-256 over everything before it. Opening checks the tag before
//! anything is decrypted and refuses the text (`Tampered`) when the tag does
//! not match the one computed under the given key. What is proved is that
//! opening under the sealing key gives the plaintext back; that another key
//! fails the tag check rests on HMAC and is only tested.

use vstd::prelude::*;
use vstd::slice::slice_subrange;
use vstd::utf8::*;

use crate::utils::encoding::{ascii_string, hex_decode, hex_decode_spec, hex_encode, hex_encode_spec, lemma_hex_round_trip};
use crate::primitives::{hmac_sha256, hmac_sha256_tag, random_bytes, string_from_utf8};

verus! {

broadcast use {encode_utf8_valid_utf8, encode_utf8_decode_utf8};

/// Why a sealed text could not be opened.
#[derive(Debug, Clone, Copy, PartialEq, Eq, Structural)]
pub enum DecryptError {
    /// The text is not an even number of hex digits.
    NotHex,
    /// The decoded bytes are too short, or name a nonce longer than they hold.
    Malformed,
    /// The tag does not match: another key, or altered bytes.
    Tampered,
    /// The plaintext is not UTF-8.
    NotUtf8,
}

/// Length of an HMAC-SHA-256 tag.
pub open spec fn tag_len() -> nat {
    32
}

/// `n` as 8 big-endian bytes.
pub open spec fn be64_bytes(n: u64) -> Seq<u8> {
    seq![
        (n >> 56) as u8,
        (n >> 48) as u8,
        (n >> 40) as u8,
        (n >> 32) as u8,
        (n >> 24) as u8,
        (n >> 16) as u8,
        (n >> 8) as u8,
        n as u8,
    ]
}

/// The number that the first 8 bytes of `b` stand for, big-endian.
pub open spec fn be64_value(b: Seq<u8>) -> u64 {
    (b[0] as u64) << 56 | (b[1] as u64) << 48 | (b[2] as u64) << 40 | (b[3] as u64) << 32 | (
    b[4] as u64) << 24 | (b[5] as u64) << 16 | (b[6] as u64) << 8 | (b[7] as u64)
}

/// The MAC input of keystream block `index`.
pub open spec fn keystream_block_input(nonce: Seq<u8>, index: u64) -> Seq<u8> {
    seq![1u8] + nonce + be64_bytes(index)
}

/// Keystream block `index`: 32 bytes.
pub open spec fn keystream_block(key: Seq<u8>, nonce: Seq<u8>, index: u64) -> Seq<u8> {
    hmac_sha256(key, keystream_block_input(nonce, index))
}

/// The first `len` keystream bytes.
pub open spec fn keystream(key: Seq<u8>, nonce: Seq<u8>, len: nat) -> Seq<u8> {
    Seq::new(len, |j: int| keystream_block(key, nonce, (j / 32) as u64)[j % 32])
}

/// `data` XORed with the keystream of `key` and `nonce`.
pub open spec fn apply_keystream(key: Seq<u8>, nonce: Seq<u8>, data: Seq<u8>) -> Seq<u8> {
    let ks = keystream(key, nonce, data.len());
    Seq::new(data.len(), |i: int| data[i] ^ ks[i])
}

/// The tag of `msg` under `key`: the 32 bytes of its HMAC-SHA-256.
pub open spec fn mac_tag(key: Seq<u8>, msg: Seq<u8>) -> Seq<u8> {
    Seq::new(tag_len(), |i: int| hmac_sha256(key, msg)[i])
}

/// The MAC input of the tag over `body`.
pub open spec fn tag_input(body: Seq<u8>) -> Seq<u8> {
    seq![2u8] + body
}

/// The sealed bytes of `plain` under `key` with `nonce`.
pub open spec fn seal_frame(key: Seq<u8>, nonce: Seq<u8>, plain: Seq<u8>) -> Seq<u8> {
    let body = be64_bytes(nonce.len() as u64) + nonce + apply_keystream(key, nonce, plain);
    body + mac_tag(key, tag_input(body))
}

/// What opening sealed bytes gives.
pub open spec fn open_frame(key: Seq<u8>, frame: Seq<u8>) -> Result<Seq<u8>, DecryptError> {
    if frame.len() < 8 + tag_len() {
        Err(DecryptError::Malformed)
    } else {
        let n = be64_value(frame.take(8));
        if n > frame.len() - 8 - tag_len() {
            Err(DecryptError::Malformed)
        } else {
            let body = frame.take(frame.len() - tag_len());
            let tag = frame.skip(frame.len() - tag_len());
            if mac_tag(key, tag_input(body)) != tag {
                Err(DecryptError::Tampered)
            } else {
                let nonce = frame.subrange(8, 8 + n);
                let cipher = frame.subrange(8 + n, frame.len() - tag_len());
                Ok(apply_keystream(key, nonce, cipher))
            }
        }
    }
}

/// The UTF-8 bytes of the text that sealing `data` under `key` with `nonce` gives.
pub open spec fn encrypt_spec(data: Seq<char>, key: Seq<char>, nonce: Seq<u8>) -> Seq<u8> {
    hex_encode_spec(seal_frame(encode_utf8(key), nonce, encode_utf8(data)))
}

/// What opening the text with UTF-8 bytes `text` under `key` gives.
pub open spec fn decrypt_spec(text: Seq<u8>, key: Seq<char>) -> Result<Seq<char>, DecryptError> {
    match hex_decode_spec(text) {
        None => Err(DecryptError::NotHex),
        Some(frame) => match open_frame(encode_utf8(key), frame) {
            Err(e) => Err(e),
            Ok(plain) => if valid_utf8(plain) {
                Ok(decode_utf8(plain))
            } else {
                Err(DecryptError::NotUtf8)
            },
        },
    }
}

proof fn lemma_be64_round_trip(n: u64)
    ensures
        be64_value(be64_bytes(n)) == n,
{
    let b0 = (n >> 56) as u8;
    let b1 = (n >> 48) as u8;
    let b2 = (n >> 40) as u8;
    let b3 = (n >> 32) as u8;
    let b4 = (n >> 24) as u8;
    let b5 = (n >> 16) as u8;
    let b6 = (n >> 8) as u8;
    let b7 = n as u8;
    assert((b0 as u64) << 56 | (b1 as u64) << 48 | (b2 as u64) << 40 | (b3 as u64) << 32 | (
    b4 as u64) << 24 | (b5 as u64) << 16 | (b6 as u64) << 8 | (b7 as u64) == n) by (bit_vector)
        requires
            b0 == (n >> 56) as u8,
            b1 == (n >> 48) as u8,
            b2 == (n >> 40) as u8,
            b3 == (n >> 32) as u8,
            b4 == (n >> 24) as u8,
            b5 == (n >> 16) as u8,
            b6 == (n >> 8) as u8,
            b7 == n as u8,
    ;
}

proof fn lemma_xor_twice(a: u8, k: u8)
    ensures
        (a ^ k) ^ k == a,
{
    assert((a ^ k) ^ k == a) by (bit_vector);
}

/// Applying the same keystream twice gives the data back.
proof fn lemma_apply_keystream_twice(key: Seq<u8>, nonce: Seq<u8>, data: Seq<u8>)
    ensures
        apply_keystream(key, nonce, apply_keystream(key, nonce, data)) == data,
{
    let once = apply_keystream(key, nonce, data);
    let twice = apply_keystream(key, nonce, once);
    assert forall|i: int| 0 <= i < data.len() implies #[trigger] twice[i] == data[i] by {
        lemma_xor_twice(data[i], keystream(key, nonce, data.len())[i]);
    }
    assert(twice =~= data);
}

proof fn lemma_open_seal(key: Seq<u8>, nonce: Seq<u8>, plain: Seq<u8>)
    requires
        nonce.len() <= u64::MAX,
    ensures
        open_frame(key, seal_frame(key, nonce, plain)) == Ok::<Seq<u8>, DecryptError>(plain),
{
    let n = nonce.len() as u64;
    let cipher = apply_keystream(key, nonce, plain);
    let body = be64_bytes(n) + nonce + cipher;
    let tag = mac_tag(key, tag_input(body));
    let frame = body + tag;
    assert(frame.take(8) =~= be64_bytes(n));
    lemma_be64_round_trip(n);
    assert(frame.take(frame.len() - tag_len()) =~= body);
    assert(frame.skip(frame.len() - tag_len()) =~= tag);
    assert(frame.subrange(8, 8 + n) =~= nonce);
    assert(frame.subrange(8 + n, frame.len() - tag_len()) =~= cipher);
    lemma_apply_keystream_twice(key, nonce, plain);
}


fn push_be64(out: &mut Vec<u8>, n: u64)
    ensures
        final(out)@ == old(out)@ + be64_bytes(n),
{
    out.push((n >> 56) as u8);
    out.push((n >> 48) as u8);
    out.push((n >> 40) as u8);
    out.push((n >> 32) as u8);
    out.push((n >> 24) as u8);
    out.push((n >> 16) as u8);
    out.push((n >> 8) as u8);
    out.push(n as u8);
    assert(out@ =~= old(out)@ + be64_bytes(n));
}

fn push_all(out: &mut Vec<u8>, bytes: &[u8])
    ensures
        final(out)@ == old(out)@ + bytes@,
{
    let mut i: usize = 0;
    while i < bytes.len()
        invariant
            i <= bytes@.len(),
            out@ == old(out)@ + bytes@.take(i as int),
        decreases bytes@.len() - i,
    {
        out.push(bytes[i]);
        i = i + 1;
        assert(out@ =~= old(out)@ + bytes@.take(i as int));
    }
    assert(bytes@.take(i as int) =~= bytes@);
}

fn block_input(nonce: &[u8], index: u64) -> (input: Vec<u8>)
    ensures
        input@ == keystream_block_input(nonce@, index),
{
    let mut input: Vec<u8> = Vec::new();
    input.push(1u8);
    push_all(&mut input, nonce);
    push_be64(&mut input, index);
    assert(input@ =~= keystream_block_input(nonce@, index));
    input
}

/// `data` XORed with the keystream of `key` and `nonce`.
pub fn keystream_xor(key: &[u8], nonce: &[u8], data: &[u8]) -> (out: Vec<u8>)
    ensures
        out@ == apply_keystream(key@, nonce@, data@),
{
    let ghost ks = keystream(key@, nonce@, data@.len());
    let mut out: Vec<u8> = Vec::new();
    let mut index: u64 = 0;
    let mut pos: usize = 0;
    while pos < data.len()
        invariant
            pos <= data@.len(),
            out@.len() == pos,
            pos == data@.len() || pos == 32 * index,
            index <= pos,
            ks == keystream(key@, nonce@, data@.len()),
            forall|j: int| 0 <= j < pos ==> #[trigger] out@[j] == data@[j] ^ ks[j],
        decreases data@.len() - pos,
    {
        let input = block_input(nonce, index);
        let block = hmac_sha256_tag(key, &input);
        let mut k: usize = 0;
        while k < 32 && pos < data.len()
            invariant
                k <= 32,
                k == 0 ==> pos < data@.len(),
                pos <= data@.len(),
                pos == 32 * index + k,
                out@.len() == pos,
                block@ == keystream_block(key@, nonce@, index),
                block@.len() == 32,
                ks == keystream(key@, nonce@, data@.len()),
                forall|j: int| 0 <= j < pos ==> #[trigger] out@[j] == data@[j] ^ ks[j],
            decreases 32 - k,
        {
            assert((32 * index + k) / 32 == index && (32 * index + k) % 32 == k as int)
                by (nonlinear_arith)
                requires
                    k < 32,
            ;
            out.push(data[pos] ^ block[k]);
            pos = pos + 1;
            k = k + 1;
        }
        index = index + 1;
    }
    assert(out@ =~= apply_keystream(key@, nonce@, data@));
    out
}

fn bytes_equal(a: &[u8], b: &[u8]) -> (eq: bool)
    ensures
        eq == (a@ == b@),
{
    if a.len() != b.len() {
        return false;
    }
    let mut i: usize = 0;
    while i < a.len()
        invariant
            i <= a@.len(),
            a@.len() == b@.len(),
            forall|j: int| 0 <= j < i ==> a@[j] == b@[j],
        decreases a@.len() - i,
    {
        if a[i] != b[i] {
            return false;
        }
        i = i + 1;
    }
    assert(a@ =~= b@);
    true
}

/// The sealed bytes of `plain` under `key` with `nonce`.
pub fn seal(key: &[u8], nonce: &[u8], plain: &[u8]) -> (frame: Vec<u8>)
    ensures
        frame@ == seal_frame(key@, nonce@, plain@),
        open_frame(key@, frame@) == Ok::<Seq<u8>, DecryptError>(plain@),
{
    let cipher = keystream_xor(key, nonce, plain);
    let mut body: Vec<u8> = Vec::new();
    push_be64(&mut body, nonce.len() as u64);
    push_all(&mut body, nonce);
    push_all(&mut body, cipher.as_slice());
    let mut input: Vec<u8> = Vec::new();
    input.push(2u8);
    push_all(&mut input, body.as_slice());
    assert(input@ =~= tag_input(body@));
    let tag = hmac_sha256_tag(key, input.as_slice());
    assert(tag@ =~= mac_tag(key@, tag_input(body@)));
    proof {
        lemma_open_seal(key@, nonce@, plain@);
    }
    let mut frame = body;
    push_all(&mut frame, tag.as_slice());
    frame
}

/// Opens sealed bytes: the plaintext, or why it cannot be had.
pub fn open(key: &[u8], frame: &[u8]) -> (plain: Result<Vec<u8>, DecryptError>)
    ensures
        plain matches Ok(p) ==> open_frame(key@, frame@) == Ok::<Seq<u8>, DecryptError>(p@),
        plain matches Err(e) ==> open_frame(key@, frame@) == Err::<Seq<u8>, DecryptError>(e),
{
    let len = frame.len();
    if len < 40 {
        return Err(DecryptError::Malformed);
    }
    let mut header: Vec<u8> = Vec::new();
    push_all(&mut header, slice_subrange(frame, 0, 8));
    let n = (header[0] as u64) << 56 | (header[1] as u64) << 48 | (header[2] as u64) << 40 | (
    header[3] as u64) << 32 | (header[4] as u64) << 24 | (header[5] as u64) << 16 | (
    header[6] as u64) << 8 | (header[7] as u64);
    assert(header@ =~= frame@.take(8));
    if n > (len - 40) as u64 {
        return Err(DecryptError::Malformed);
    }
    let n = n as usize;
    let body = slice_subrange(frame, 0, len - 32);
    let tag = slice_subrange(frame, len - 32, len);
    let mut input: Vec<u8> = Vec::new();
    input.push(2u8);
    push_all(&mut input, body);
    assert(input@ =~= tag_input(frame@.take(len - 32)));
    assert(tag@ =~= frame@.skip(len - 32));
    let expected = hmac_sha256_tag(key, input.as_slice());
    assert(expected@ =~= mac_tag(key@, tag_input(frame@.take(len - 32))));
    if !bytes_equal(expected.as_slice(), tag) {
        return Err(DecryptError::Tampered);
    }
    let nonce = slice_subrange(frame, 8, 8 + n);
    let cipher = slice_subrange(frame, 8 + n, len - 32);
    Ok(keystream_xor(key, nonce, cipher))
}

/// Decryption undoes encryption: the text that sealing `data` under `key`
/// gives opens, under the same key, to `data`, whatever the nonce.
pub proof fn lemma_decrypt_encrypt(data: Seq<char>, key: Seq<char>, nonce: Seq<u8>)
    requires
        nonce.len() <= u64::MAX,
    ensures
        decrypt_spec(encrypt_spec(data, key, nonce), key) == Ok::<Seq<char>, DecryptError>(data),
{
    let frame = seal_frame(encode_utf8(key), nonce, encode_utf8(data));
    lemma_hex_round_trip(frame);
    lemma_open_seal(encode_utf8(key), nonce, encode_utf8(data));
}

/// Seals `data` under `key` with the given nonce, as lowercase hex.
pub fn encrypt_with_nonce(data: &str, key: &str, nonce: &[u8]) -> (sealed: String)
    ensures
        encode_utf8(sealed@) == encrypt_spec(data@, key@, nonce@),
        decrypt_spec(encode_utf8(sealed@), key@) == Ok::<Seq<char>, DecryptError>(data@),
{
    let frame = seal(key.as_bytes(), nonce, data.as_bytes());
    let text = hex_encode(frame.as_slice());
    proof {
        lemma_hex_round_trip(frame@);
    }
    ascii_string(text)
}

/// Seals `data` under `key` with a fresh random nonce of `nonce_len` bytes.
/// The result is lowercase hex, and `decrypt` with the same key gives `data`
/// back.
pub fn encrypt(data: &str, key: &str, nonce_len: usize) -> (sealed: String)
    ensures
        exists|nonce: Seq<u8>|
            nonce.len() == nonce_len && encode_utf8(sealed@) == #[trigger] encrypt_spec(
                data@,
                key@,
                nonce,
            ),
        decrypt_spec(encode_utf8(sealed@), key@) == Ok::<Seq<char>, DecryptError>(data@),
{
    let nonce = random_bytes(nonce_len);
    encrypt_with_nonce(data, key, nonce.as_slice())
}

/// Opens a text made by `encrypt`. Fails when the text is not hex, is not a
/// sealed value, was sealed under another key or altered, or does not hold
/// UTF-8.
pub fn decrypt(data: &str, key: &str) -> (plain: Result<String, DecryptError>)
    ensures
        plain matches Ok(s) ==> decrypt_spec(encode_utf8(data@), key@) == Ok::<
            Seq<char>,
            DecryptError,
        >(s@),
        plain matches Err(e) ==> decrypt_spec(encode_utf8(data@), key@) == Err::<
            Seq<char>,
            DecryptError,
        >(e),
{
    let frame = match hex_decode(data.as_bytes()) {
        Some(f) => f,
        None => return Err(DecryptError::NotHex),
    };
    match open(key.as_bytes(), frame.as_slice()) {
        Err(e) => Err(e),
        Ok(plain) => {
            match string_from_utf8(plain) {
                Some(s) => {
                    proof {
                        encode_utf8_decode_utf8(s@);
                    }
                    Ok(s)
                },
                None => Err(DecryptError::NotUtf8),
            }
        },
    }
}

} // verus!
