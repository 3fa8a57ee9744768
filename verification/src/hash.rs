//! Block hashes and their hex form at the client's boundary.

use vstd::prelude::*;
use vstd::slice::slice_subrange;
use vstd::string::StringSliceAdditionalSpecFns;
use crate::error::ChainError;

verus! {

/// A block hash: 32 bytes.
#[derive(Clone, Copy, Debug, PartialEq, Eq)]
pub struct Hash {
    pub bytes: [u8; 32],
}

impl View for Hash {
    type V = Seq<u8>;

    open spec fn view(&self) -> Seq<u8> {
        self.bytes@
    }
}

/// The value of one hex digit, in either case, given as an ASCII byte.
pub open spec fn hex_value(c: u8) -> Option<u8> {
    if 0x30 <= c <= 0x39 {
        Some((c - 0x30) as u8)
    } else if 0x41 <= c <= 0x46 {
        Some((c - 0x41 + 10) as u8)
    } else if 0x61 <= c <= 0x66 {
        Some((c - 0x61 + 10) as u8)
    } else {
        None
    }
}

/// Whether every byte of `text` is a hex digit.
pub open spec fn is_hex(text: Seq<u8>) -> bool {
    forall|i: int| 0 <= i < text.len() ==> (#[trigger] hex_value(text[i])) is Some
}

/// The bytes that the hex digits of `text` spell, two digits to a byte, the
/// high digit first.
pub open spec fn hex_bytes(text: Seq<u8>) -> Seq<u8>
    recommends
        is_hex(text),
        text.len() % 2 == 0,
{
    Seq::new(
        text.len() / 2,
        |i: int| (hex_value(text[2 * i]).unwrap() * 16 + hex_value(text[2 * i + 1]).unwrap()) as u8,
    )
}

/// The number that the hex digits of `text` spell, the highest digit first.
pub open spec fn hex_number(text: Seq<u8>) -> nat
    recommends
        is_hex(text),
    decreases text.len(),
{
    if text.len() == 0 {
        0
    } else {
        hex_number(text.drop_last()) * 16 + hex_value(text.last()).unwrap() as nat
    }
}

/// The hash that `text` spells after a two-byte prefix such as `0x`: the
/// prefix itself is not looked at, and 64 hex digits must follow it.
pub open spec fn prefixed_hash(text: Seq<u8>) -> Option<Seq<u8>> {
    if text.len() == 66 && is_hex(text.subrange(2, 66)) {
        Some(hex_bytes(text.subrange(2, 66)))
    } else {
        None
    }
}

/// The hash in a node's reply to a hash lookup: a quoted, prefixed hex string,
/// of which the 64 digits after the quote and the prefix are read and
/// whatever follows them is not.
pub open spec fn reply_hash(text: Seq<u8>) -> Option<Seq<u8>> {
    if text.len() >= 67 && is_hex(text.subrange(3, 67)) {
        Some(hex_bytes(text.subrange(3, 67)))
    } else {
        None
    }
}

/// The height that `text` spells after a two-byte prefix such as `0x`: at
/// least one hex digit, and a value that a 32-bit height can hold.
pub open spec fn prefixed_number(text: Seq<u8>) -> Option<u32> {
    if text.len() > 2 && is_hex(text.subrange(2, text.len() as int)) && hex_number(
        text.subrange(2, text.len() as int),
    ) <= u32::MAX {
        Some(hex_number(text.subrange(2, text.len() as int)) as u32)
    } else {
        None
    }
}

/// Calls `hex::decode_to_slice` on a 32-byte buffer. That function accepts
/// `text` exactly when it holds twice as many bytes as the buffer and each is
/// a hex digit of either case, and then fills the buffer with the bytes that
/// the digit pairs spell.
#[verifier::external_body]
fn decode_hex_32(text: &[u8]) -> (decoded: Option<[u8; 32]>)
    ensures
        decoded is Some <==> (text@.len() == 64 && is_hex(text@)),
        decoded matches Some(bytes) ==> bytes@ == hex_bytes(text@),
{
    let mut out = [0u8; 32];
    match hex::decode_to_slice(text, &mut out) {
        Ok(()) => Some(out),
        Err(_) => None,
    }
}

/// Reads the value of one hex digit.
pub fn hex_digit(c: u8) -> (value: Option<u8>)
    ensures
        value == hex_value(c),
{
    if 0x30 <= c && c <= 0x39 {
        Some(c - 0x30)
    } else if 0x41 <= c && c <= 0x46 {
        Some(c - 0x41 + 10)
    } else if 0x61 <= c && c <= 0x66 {
        Some(c - 0x61 + 10)
    } else {
        None
    }
}

/// Decodes a hash from its prefixed hex form, given as bytes.
pub fn hash_from_prefixed(text: &[u8]) -> (hash: Option<Hash>)
    ensures
        hash is Some <==> prefixed_hash(text@) is Some,
        hash matches Some(h) ==> h@ == prefixed_hash(text@).unwrap(),
{
    if text.len() != 66 {
        return None;
    }
    match decode_hex_32(slice_subrange(text, 2, 66)) {
        Some(bytes) => Some(Hash { bytes }),
        None => None,
    }
}

/// Decodes a height from its prefixed hex form, given as bytes.
pub fn number_from_prefixed(text: &[u8]) -> (number: Option<u32>)
    ensures
        number == prefixed_number(text@),
{
    let n = text.len();
    if n <= 2 {
        return None;
    }
    let ghost digits = text@.subrange(2, n as int);
    let mut value: u32 = 0;
    let mut overflow = false;
    let mut i: usize = 2;
    while i < n
        invariant
            2 <= i <= n,
            n == text@.len(),
            digits == text@.subrange(2, n as int),
            is_hex(digits.subrange(0, i - 2)),
            overflow ==> hex_number(digits.subrange(0, i - 2)) > u32::MAX,
            !overflow ==> value == hex_number(digits.subrange(0, i - 2)),
        decreases n - i,
    {
        let ghost before = digits.subrange(0, i - 2);
        let ghost after = digits.subrange(0, i - 1);
        proof {
            assert(after.drop_last() =~= before);
            assert(after.last() == text@[i as int]);
        }
        match hex_digit(text[i]) {
            None => {
                proof {
                    assert(hex_value(digits[i - 2]) is None);
                }
                return None;
            },
            Some(d) => {
                proof {
                    assert forall|j: int| 0 <= j < after.len() implies (#[trigger] hex_value(
                        after[j],
                    )) is Some by {
                        if j < before.len() {
                            assert(after[j] == before[j]);
                        }
                    }
                }
                if !overflow {
                    let wide: u64 = value as u64 * 16 + d as u64;
                    if wide > u32::MAX as u64 {
                        overflow = true;
                    } else {
                        value = wide as u32;
                    }
                }
            },
        }
        i = i + 1;
    }
    proof {
        assert(digits.subrange(0, n - 2) =~= digits);
    }
    if overflow {
        None
    } else {
        Some(value)
    }
}

/// Decodes a block hash from a hex string with a two-byte prefix such as
/// `0x`. Anything but 64 hex digits after the prefix is refused as malformed,
/// and the error carries the text.
pub fn parse_block_hash(text: &str) -> (r: Result<Hash, ChainError>)
    ensures
        match prefixed_hash(text.spec_bytes()) {
            Some(bytes) => r matches Ok(h) && h@ == bytes,
            None => r matches Err(ChainError::Malformed(payload)) && payload@ == text@,
        },
{
    match hash_from_prefixed(text.as_bytes()) {
        Some(hash) => Ok(hash),
        None => Err(ChainError::Malformed(text.to_owned())),
    }
}

/// Decodes the block hash in a node's reply to a hash lookup: the 64 hex
/// digits that follow the opening quote and the two-byte prefix. A reply that
/// is too short or holds anything else there is refused as malformed, and the
/// error carries the reply.
pub fn parse_hash_reply(text: &str) -> (r: Result<Hash, ChainError>)
    ensures
        match reply_hash(text.spec_bytes()) {
            Some(bytes) => r matches Ok(h) && h@ == bytes,
            None => r matches Err(ChainError::Malformed(payload)) && payload@ == text@,
        },
{
    let bytes = text.as_bytes();
    if bytes.len() < 67 {
        return Err(ChainError::Malformed(text.to_owned()));
    }
    match decode_hex_32(slice_subrange(bytes, 3, 67)) {
        Some(decoded) => Ok(Hash { bytes: decoded }),
        None => Err(ChainError::Malformed(text.to_owned())),
    }
}

} // verus!
