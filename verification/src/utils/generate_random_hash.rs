//! Random identifiers: a prefix of the hex SHA-256 digest of a random
//! alphanumeric string.

use vstd::prelude::*;
use vstd::utf8::*;

use crate::primitives::{is_alphanumeric_byte, random_alphanumeric, sha256, sha256_digest};
use crate::utils::encoding::{all_ascii, ascii_string, hex_encode, hex_encode_spec, lemma_hex_round_trip};

verus! {

/// A lowercase ASCII hex digit: `0`-`9` or `a`-`f`.
pub open spec fn is_lower_hex_digit(b: u8) -> bool {
    (48 <= b <= 57) || (97 <= b <= 102)
}

/// `id` is a random identifier of `len` characters: its UTF-8 bytes are `len`
/// lowercase hex digits.
pub open spec fn is_random_id(id: Seq<char>, len: nat) -> bool {
    &&& encode_utf8(id).len() == len
    &&& forall|i: int| 0 <= i < len ==> is_lower_hex_digit(#[trigger] encode_utf8(id)[i])
}

/// The identifier of length `len` derived from the random seed `seed`: the
/// first `len` characters of the lowercase hex SHA-256 digest of `seed`.
pub open spec fn short_id_spec(seed: Seq<u8>, len: nat) -> Seq<u8> {
    hex_encode_spec(sha256(seed)).take(len as int)
}

/// The identifier of length `len` that the seed `seed` gives. A digest has 64
/// hex digits, so `len` is at most 64.
pub fn short_id_from_seed(seed: &[u8], len: usize) -> (id: String)
    requires
        len <= 64,
    ensures
        encode_utf8(id@) == short_id_spec(seed@, len as nat),
        is_random_id(id@, len as nat),
{
    let digest = sha256_digest(seed);
    let hex = hex_encode(digest.as_slice());
    proof {
        lemma_hex_round_trip(digest@);
    }
    let mut prefix: Vec<u8> = Vec::new();
    let mut i: usize = 0;
    while i < len
        invariant
            i <= len,
            len <= hex@.len(),
            prefix@ == hex@.take(i as int),
        decreases len - i,
    {
        prefix.push(hex[i]);
        i = i + 1;
        assert(prefix@ =~= hex@.take(i as int));
    }
    assert forall|j: int| 0 <= j < len implies is_lower_hex_digit(#[trigger] prefix@[j]) by {
        assert(prefix@[j] == hex@[j]);
        let b = digest@[j / 2];
        assert(b / 16 < 16 && b % 16 < 16);
    }
    assert(all_ascii(prefix@));
    ascii_string(prefix)
}

/// A fresh random identifier of `len` lowercase hex characters (at most 64):
/// the SHA-256 digest of `len` random letters and digits, in hex, cut to
/// `len`.
pub fn generate_random_hash_function(len: usize) -> (id: String)
    requires
        len <= 64,
    ensures
        is_random_id(id@, len as nat),
        exists|seed: Seq<u8>|
            seed.len() == len && (forall|i: int| 0 <= i < len ==> is_alphanumeric_byte(#[trigger] seed[i]))
                && encode_utf8(id@) == #[trigger] short_id_spec(seed, len as nat),
{
    let seed = random_alphanumeric(len);
    short_id_from_seed(seed.as_slice(), len)
}

} // verus!
