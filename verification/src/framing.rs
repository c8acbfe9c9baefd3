//! The compact form of a token: three segments, separated by two dots.

use vstd::prelude::*;
use vstd::string::StringSliceAdditionalSpecFns;

verus! {

/// The byte that separates the segments of a token: a dot.
pub const SEPARATOR: u8 = 0x2E;

/// How many separators a text holds.
pub open spec fn spec_separators(bytes: Seq<u8>) -> nat
    decreases bytes.len(),
{
    if bytes.len() == 0 {
        0
    } else if bytes.last() == SEPARATOR {
        spec_separators(bytes.drop_last()) + 1
    } else {
        spec_separators(bytes.drop_last())
    }
}

/// Whether a text has the frame of a token: exactly three segments, empty
/// ones among them.
pub open spec fn spec_framed(bytes: Seq<u8>) -> bool {
    spec_separators(bytes) == 2
}

/// Appending one byte adds one separator if the byte is a dot, and none
/// otherwise.
pub proof fn lemma_separators_push(bytes: Seq<u8>, byte: u8)
    ensures
        spec_separators(bytes.push(byte)) == spec_separators(bytes) + if byte == SEPARATOR {
            1nat
        } else {
            0nat
        },
{
    assert(bytes.push(byte).drop_last() == bytes);
}

/// Counts the separators of a token.
pub fn count_separators(token: &str) -> (count: usize)
    ensures
        count == spec_separators(token.spec_bytes()),
{
    let bytes = token.as_bytes();
    let mut count: usize = 0;
    let mut index: usize = 0;
    while index < bytes.len()
        invariant
            index <= bytes.len(),
            count <= index,
            count == spec_separators(bytes@.take(index as int)),
        decreases bytes.len() - index,
    {
        proof {
            lemma_separators_push(bytes@.take(index as int), bytes@[index as int]);
            assert(bytes@.take(index as int).push(bytes@[index as int]) == bytes@.take(
                index as int + 1,
            ));
        }
        if bytes[index] == SEPARATOR {
            count = count + 1;
        }
        index = index + 1;
    }
    assert(bytes@.take(index as int) == bytes@);
    count
}

/// Whether a token has exactly three segments.
pub fn is_framed(token: &str) -> (framed: bool)
    ensures
        framed == spec_framed(token.spec_bytes()),
{
    count_separators(token) == 2
}

/// Whether a byte belongs to the base64url alphabet: a letter, a digit,
/// `-` or `_`.
pub open spec fn spec_base64url_byte(byte: u8) -> bool {
    ||| 0x41 <= byte <= 0x5A
    ||| 0x61 <= byte <= 0x7A
    ||| 0x30 <= byte <= 0x39
    ||| byte == 0x2D
    ||| byte == 0x5F
}

/// Whether a text holds nothing but separators and the base64url alphabet.
pub open spec fn spec_token_alphabet(bytes: Seq<u8>) -> bool {
    forall|i: int|
        0 <= i < bytes.len() ==> bytes[i] == SEPARATOR || spec_base64url_byte(#[trigger] bytes[i])
}

/// The length of the last segment: the bytes after the last separator.
pub open spec fn spec_tail_len(bytes: Seq<u8>) -> nat
    decreases bytes.len(),
{
    if bytes.len() == 0 || bytes.last() == SEPARATOR {
        0
    } else {
        spec_tail_len(bytes.drop_last()) + 1
    }
}

/// Whether unpadded base64 can have this length: every length but one past
/// a multiple of four.
pub open spec fn spec_base64_len(len: nat) -> bool {
    len % 4 != 1
}

/// Whether each segment that a separator ends has a length of base64.
pub open spec fn spec_closed_lengths(bytes: Seq<u8>) -> bool
    decreases bytes.len(),
{
    if bytes.len() == 0 {
        true
    } else if bytes.last() == SEPARATOR {
        spec_closed_lengths(bytes.drop_last()) && spec_base64_len(
            spec_tail_len(bytes.drop_last()),
        )
    } else {
        spec_closed_lengths(bytes.drop_last())
    }
}

/// Whether every segment has a length of base64.
pub open spec fn spec_segment_lengths(bytes: Seq<u8>) -> bool {
    spec_closed_lengths(bytes) && spec_base64_len(spec_tail_len(bytes))
}

/// Whether no segment that a separator ends is empty.
pub open spec fn spec_closed_nonempty(bytes: Seq<u8>) -> bool
    decreases bytes.len(),
{
    if bytes.len() == 0 {
        true
    } else if bytes.last() == SEPARATOR {
        spec_closed_nonempty(bytes.drop_last()) && spec_tail_len(bytes.drop_last()) > 0
    } else {
        spec_closed_nonempty(bytes.drop_last())
    }
}

/// Whether a text is three segments of valid unpadded base64url: the
/// alphabet, and a length that base64 can have.
pub open spec fn spec_segments_base64url(bytes: Seq<u8>) -> bool {
    spec_framed(bytes) && spec_token_alphabet(bytes) && spec_segment_lengths(bytes)
}

/// The shape of an issued token: three segments of valid base64url, none
/// of them empty, the last of the 43 characters of a 32-byte tag.
pub open spec fn spec_token_shape(bytes: Seq<u8>) -> bool {
    &&& spec_segments_base64url(bytes)
    &&& spec_closed_nonempty(bytes)
    &&& spec_tail_len(bytes) == 43
}

/// Whether a byte belongs to the base64url alphabet.
pub fn is_base64url_byte(byte: u8) -> (member: bool)
    ensures
        member == spec_base64url_byte(byte),
{
    (0x41 <= byte && byte <= 0x5A) || (0x61 <= byte && byte <= 0x7A) || (0x30 <= byte && byte
        <= 0x39) || byte == 0x2D || byte == 0x5F
}

/// Whether a token holds nothing but separators and the base64url alphabet.
pub fn has_token_alphabet(token: &str) -> (clean: bool)
    ensures
        clean == spec_token_alphabet(token.spec_bytes()),
{
    let bytes = token.as_bytes();
    let mut index: usize = 0;
    while index < bytes.len()
        invariant
            index <= bytes.len(),
            bytes@ == token.spec_bytes(),
            forall|i: int|
                0 <= i < index ==> bytes@[i] == SEPARATOR || spec_base64url_byte(
                    #[trigger] bytes@[i],
                ),
        decreases bytes.len() - index,
    {
        if bytes[index] != SEPARATOR && !is_base64url_byte(bytes[index]) {
            assert(!spec_base64url_byte(token.spec_bytes()[index as int]));
            return false;
        }
        index = index + 1;
    }
    true
}

/// Whether every segment of a token has a length of base64.
pub fn has_segment_lengths(token: &str) -> (sound: bool)
    ensures
        sound == spec_segment_lengths(token.spec_bytes()),
{
    let bytes = token.as_bytes();
    let mut sound: bool = true;
    let mut tail: usize = 0;
    let mut index: usize = 0;
    while index < bytes.len()
        invariant
            index <= bytes.len(),
            tail <= index,
            tail == spec_tail_len(bytes@.take(index as int)),
            sound == spec_closed_lengths(bytes@.take(index as int)),
        decreases bytes.len() - index,
    {
        proof {
            let next = bytes@.take(index as int + 1);
            assert(next.drop_last() == bytes@.take(index as int));
            assert(next.last() == bytes@[index as int]);
        }
        if bytes[index] == SEPARATOR {
            sound = sound && tail % 4 != 1;
            tail = 0;
        } else {
            tail = tail + 1;
        }
        index = index + 1;
    }
    assert(bytes@.take(index as int) == bytes@);
    sound && tail % 4 != 1
}

/// Whether a token is three segments of valid unpadded base64url.
pub fn has_base64url_segments(token: &str) -> (valid: bool)
    ensures
        valid == spec_segments_base64url(token.spec_bytes()),
{
    is_framed(token) && has_token_alphabet(token) && has_segment_lengths(token)
}

} // verus!
