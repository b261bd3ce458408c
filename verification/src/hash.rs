//! Fingerprints: 64-bit identifiers derived from content.

use vstd::prelude::*;
use vstd::string::StringSliceAdditionalSpecFns;
use vstd::utf8::encode_utf8;

verus! {

/// First state of every fold.
pub const OFFSET_BASIS: u64 = 0xcbf2_9ce4_8422_2325;

/// Multiplier of every fold step.
pub const PRIME: u64 = 0x0000_0100_0000_01b3;

/// Seed that separates static byte strings from other fingerprints.
pub const BYTES_SEED: u64 = 0x6279_7465_735f_5f31;

/// Seed that separates static strings from other fingerprints.
pub const STRING_SEED: u64 = 0x7374_7269_6e67_5f31;

/// Seed that separates object key sets from other fingerprints.
pub const OBJECT_KEYS_SEED: u64 = 0x6f62_6a6b_6579_7331;

/// Seed that separates identifiers from other fingerprints.
pub const IDENT_SEED: u64 = 0x6964_656e_745f_5f31;

/// Seed that separates item paths from other fingerprints.
pub const TYPE_SEED: u64 = 0x7479_7065_5f5f_5f31;

/// Seed that separates associated functions from other fingerprints.
pub const ASSOCIATED_SEED: u64 = 0x6173_736f_635f_5f31;

/// Word that closes one key of an object key set.
pub const KEY_END: u64 = 0xff;

/// One step of the fold: xor the word into the state, then multiply by
/// [`PRIME`] modulo 2^64.
pub open spec fn mix(state: u64, word: u64) -> u64 {
    (((state ^ word) as nat * PRIME as nat) % 0x1_0000_0000_0000_0000) as u64
}

/// The fold of [`mix`] over `bytes`, from left to right, starting at `state`.
pub open spec fn fold_bytes(state: u64, bytes: Seq<u8>) -> u64
    decreases bytes.len(),
{
    if bytes.len() == 0 {
        state
    } else {
        mix(fold_bytes(state, bytes.drop_last()), bytes.last() as u64)
    }
}

/// The fold over a list of keys: each key's bytes, then [`KEY_END`].
pub open spec fn fold_keys(state: u64, keys: Seq<Seq<u8>>) -> u64
    decreases keys.len(),
{
    if keys.len() == 0 {
        state
    } else {
        mix(fold_bytes(fold_keys(state, keys.drop_last()), keys.last()), KEY_END)
    }
}

/// Fingerprint of a static byte string.
pub open spec fn static_bytes_hash(bytes: Seq<u8>) -> u64 {
    fold_bytes(mix(OFFSET_BASIS, BYTES_SEED), bytes)
}

/// Fingerprint of a static string, taken over its UTF-8 encoding.
pub open spec fn static_string_hash(bytes: Seq<u8>) -> u64 {
    fold_bytes(mix(OFFSET_BASIS, STRING_SEED), bytes)
}

/// Fingerprint of an identifier, taken over its UTF-8 encoding.
pub open spec fn ident_hash(bytes: Seq<u8>) -> u64 {
    fold_bytes(mix(OFFSET_BASIS, IDENT_SEED), bytes)
}

/// Fingerprint of a list of object keys, each given by its UTF-8 encoding.
pub open spec fn object_keys_hash(keys: Seq<Seq<u8>>) -> u64 {
    fold_keys(mix(OFFSET_BASIS, OBJECT_KEYS_SEED), keys)
}

/// Fingerprint of the function `name` associated with the type `type_hash`.
pub open spec fn associated_function_hash(type_hash: u64, name: u64) -> u64 {
    mix(mix(mix(OFFSET_BASIS, ASSOCIATED_SEED), type_hash), name)
}

/// A 64-bit fingerprint.
#[derive(Clone, Copy, Debug, PartialEq, Eq, Structural, Hash)]
pub struct Hash(pub u64);

impl Hash {
    /// The fingerprint of nothing.
    pub fn empty() -> (h: Hash)
        ensures
            h == Hash(0),
    {
        Hash(0)
    }

    /// Wraps a raw fingerprint.
    pub fn new(value: u64) -> (h: Hash)
        ensures
            h == Hash(value),
    {
        Hash(value)
    }

    /// The raw fingerprint.
    pub fn into_inner(self) -> (value: u64)
        ensures
            value == self.0,
    {
        self.0
    }

    /// Fingerprint of a static byte string.
    pub fn static_bytes(bytes: &[u8]) -> (h: Hash)
        ensures
            h.0 == static_bytes_hash(bytes@),
    {
        Hash(fold(step(OFFSET_BASIS, BYTES_SEED), bytes))
    }

    /// Fingerprint of a static string.
    pub fn static_string(string: &str) -> (h: Hash)
        ensures
            h.0 == static_string_hash(encode_utf8(string@)),
    {
        Hash(fold(step(OFFSET_BASIS, STRING_SEED), string.as_bytes()))
    }

    /// Fingerprint of an identifier.
    pub fn ident(name: &str) -> (h: Hash)
        ensures
            h.0 == ident_hash(encode_utf8(name@)),
    {
        Hash(fold(step(OFFSET_BASIS, IDENT_SEED), name.as_bytes()))
    }

    /// Fingerprint of a list of object keys, in the order given.
    pub fn object_keys(keys: &Vec<String>) -> (h: Hash)
        ensures
            h.0 == object_keys_hash(key_bytes(texts(keys@))),
    {
        let mut state = step(OFFSET_BASIS, OBJECT_KEYS_SEED);
        let mut i: usize = 0;
        while i < keys.len()
            invariant
                i <= keys.len(),
                state == fold_keys(mix(OFFSET_BASIS, OBJECT_KEYS_SEED), key_bytes(texts(keys@.take(i as int)))),
            decreases keys.len() - i,
        {
            proof {
                let next = key_bytes(texts(keys@.take(i + 1)));
                assert(next.drop_last() =~= key_bytes(texts(keys@.take(i as int))));
                assert(next.last() == encode_utf8(keys@[i as int]@));
            }
            state = step(fold(state, keys[i].as_str().as_bytes()), KEY_END);
            i += 1;
        }
        proof {
            assert(keys@.take(keys.len() as int) =~= keys@);
        }
        Hash(state)
    }

    /// Fingerprint of the function `name` associated with the type
    /// `type_hash`.
    pub fn associated_function(type_hash: Hash, name: Hash) -> (h: Hash)
        ensures
            h.0 == associated_function_hash(type_hash.0, name.0),
    {
        Hash(step(step(step(OFFSET_BASIS, ASSOCIATED_SEED), type_hash.0), name.0))
    }
}

/// The contents of a list of strings.
pub open spec fn texts(strings: Seq<String>) -> Seq<Seq<char>> {
    strings.map_values(|s: String| s@)
}

/// The UTF-8 encodings of a list of keys.
pub open spec fn key_bytes(keys: Seq<Seq<char>>) -> Seq<Seq<u8>> {
    keys.map_values(|k: Seq<char>| encode_utf8(k))
}

/// One step of the fold.
pub fn step(state: u64, word: u64) -> (next: u64)
    ensures
        next == mix(state, word),
{
    (state ^ word).wrapping_mul(PRIME)
}

/// The fold over a byte slice.
pub fn fold(state: u64, bytes: &[u8]) -> (h: u64)
    ensures
        h == fold_bytes(state, bytes@),
{
    let mut h = state;
    let mut i: usize = 0;
    while i < bytes.len()
        invariant
            i <= bytes.len(),
            h == fold_bytes(state, bytes@.take(i as int)),
        decreases bytes.len() - i,
    {
        proof {
            assert(bytes@.take(i + 1).drop_last() =~= bytes@.take(i as int));
        }
        h = step(h, bytes[i] as u64);
        i += 1;
    }
    proof {
        assert(bytes@.take(bytes.len() as int) =~= bytes@);
    }
    h
}

} // verus!
