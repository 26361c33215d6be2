//! How the store orders the keys of the games: identities as bytes, the
//! length prefix of a key component, and the order of byte strings.

use vstd::prelude::*;
use vstd::utf8::encode_utf8;

verus! {

/// The longest key component, in bytes, that the store's length prefix can hold.
pub const MAX_KEY_PART: usize = 0xFFFF;

/// The bytes that stand for an identity in a storage key: its UTF-8 encoding.
pub open spec fn key_bytes(s: Seq<char>) -> Seq<u8> {
    encode_utf8(s)
}

/// Whether an identity can be a length-prefixed component of a storage key.
pub open spec fn fits_key(s: Seq<char>) -> bool {
    key_bytes(s).len() <= MAX_KEY_PART
}

/// The two bytes, big end first, that announce a component of `n` bytes.
pub open spec fn length_prefix(n: int) -> Seq<u8> {
    seq![(n / 256) as u8, (n % 256) as u8]
}

/// The primary key of the pair `(host, opponent)` as the store orders it: the
/// host with its length before it, then the opponent.
pub open spec fn pair_key(pair: (Seq<char>, Seq<char>)) -> Seq<u8> {
    length_prefix(key_bytes(pair.0).len() as int) + key_bytes(pair.0) + key_bytes(pair.1)
}

/// The order in which the store walks its keys: `a` comes strictly before `b`
/// where `a` is a proper prefix of `b`, or holds the smaller byte at the first
/// place where the two differ.
pub open spec fn bytes_before(a: Seq<u8>, b: Seq<u8>) -> bool {
    exists|i: int|
        0 <= i <= a.len() && i < b.len() && #[trigger] a.take(i) == b.take(i) && (i == a.len()
            || a[i] < b[i])
}

/// Whether `s` can be a length-prefixed component of a storage key.
pub fn is_key_part(s: &str) -> (b: bool)
    ensures
        b == fits_key(s@),
{
    s.as_bytes().len() <= MAX_KEY_PART
}

} // verus!
