//! Match identifiers: generation of fresh short codes and validation of
//! their format.
//!
//! An identifier is ten characters of lowercase digits and letters, obtained
//! by encoding eight random bytes with a human-friendly base-32 alphabet and
//! keeping the first ten digits. Eight bytes always encode to thirteen
//! digits, so no padding is ever needed.

use vstd::prelude::*;

verus! {

/// A character the identifier encoding can produce: a digit or a lowercase
/// letter other than `i`, `l`, `o` and `u`, which the alphabet leaves out.
pub open spec fn is_crockford_lower_char(c: char) -> bool {
    ('0' <= c && c <= '9') || ('a' <= c && c <= 'z' && c != 'i' && c != 'l' && c != 'o' && c != 'u')
}

/// The lowercased base-32 encoding of a byte string; a function of the
/// bytes alone.
pub uninterp spec fn crockford_lower(bytes: Seq<u8>) -> Seq<char>;

/// Relies on `base32::encode` with `Alphabet::Crockford`, lowercased through
/// `str::to_lowercase`: the unpadded encoding of `n` bytes is the rounding
/// up of `8n/5` digits, each drawn from `0123456789abcdefghjkmnpqrstvwxyz`
/// after folding, and is a function of the bytes alone.
#[verifier::external_body]
fn encode_id_bytes(bytes: &Vec<u8>) -> (r: String)
    ensures
        r@ == crockford_lower(bytes@),
        r@.len() == (bytes@.len() * 8 + 4) / 5,
        forall|i: int| 0 <= i < r@.len() ==> is_crockford_lower_char(#[trigger] r@[i]),
{
    base32::encode(base32::Alphabet::Crockford, bytes.as_slice()).to_lowercase()
}

/// Relies on `rand::random`: a value drawn from the thread-local generator.
/// Nothing is assumed of the value.
pub assume_specification<T>[ rand::random::<T> ]() -> (r: T)
    where
        rand::distributions::Standard: rand::distributions::Distribution<T>,
;

/// Fresh random bytes for an identifier, drawn one at a time.
fn random_bytes(n: usize) -> (r: Vec<u8>)
    ensures
        r@.len() == n,
{
    let mut out: Vec<u8> = Vec::new();
    let mut i: usize = 0;
    while i < n
        invariant
            0 <= i <= n,
            out@.len() == i,
        decreases n - i,
    {
        out.push(rand::random::<u8>());
        i = i + 1;
    }
    out
}

/// A well-formed match identifier: exactly ten characters, each a lowercase
/// letter or digit.
pub open spec fn valid_game_id_seq(s: Seq<char>) -> bool {
    s.len() == 10 && forall|i: int|
        0 <= i < s.len() ==> (('a' <= #[trigger] s[i] && s[i] <= 'z') || ('0' <= s[i] && s[i]
            <= '9'))
}

/// Checks the format of a match identifier: ten characters, lowercase
/// letters and digits only.
pub fn is_valid_game_id_format(game_id: &str) -> (ok: bool)
    ensures
        ok == valid_game_id_seq(game_id@),
{
    let len = game_id.unicode_len();
    if len != 10 {
        return false;
    }
    let mut i: usize = 0;
    while i < len
        invariant
            0 <= i <= len,
            len == game_id@.len(),
            forall|k: int|
                0 <= k < i ==> (('a' <= #[trigger] game_id@[k] && game_id@[k] <= 'z') || ('0'
                    <= game_id@[k] && game_id@[k] <= '9')),
        decreases len - i,
    {
        let c = game_id.get_char(i);
        if !(('a' <= c && c <= 'z') || ('0' <= c && c <= '9')) {
            return false;
        }
        i = i + 1;
    }
    true
}

/// Generates a fresh match identifier from eight random bytes; the result
/// always has the well-formed format.
pub fn generate_game_id() -> (r: String)
    ensures
        valid_game_id_seq(r@),
{
    let bytes = random_bytes(8);
    let encoded = encode_id_bytes(&bytes);
    proof {
        assert(encoded@.len() == 13);
    }
    let id = encoded.as_str().substring_char(0, 10);
    proof {
        assert forall|i: int| 0 <= i < id@.len() implies (('a' <= #[trigger] id@[i] && id@[i]
            <= 'z') || ('0' <= id@[i] && id@[i] <= '9')) by {
            assert(id@[i] == encoded@[i]);
            assert(is_crockford_lower_char(encoded@[i]));
        }
    }
    id.to_owned()
}

} // verus!
