//! Register words as bytes: 32 bits, least significant byte first.

use byteorder::{ByteOrder, LittleEndian};
use vstd::prelude::*;

verus! {

/// The word that the first four bytes of `bytes` stand for, least
/// significant byte first.
pub open spec fn word_of_bytes(bytes: Seq<u8>) -> u32
    recommends
        bytes.len() >= 4,
{
    (bytes[0] as int + bytes[1] as int * 0x100 + bytes[2] as int * 0x1_0000 + bytes[3] as int
        * 0x100_0000) as u32
}

/// The four bytes that stand for `word`, least significant byte first.
pub open spec fn bytes_of_word(word: u32) -> Seq<u8> {
    seq![
        (word % 0x100) as u8,
        (word / 0x100 % 0x100) as u8,
        (word / 0x1_0000 % 0x100) as u8,
        (word / 0x100_0000) as u8,
    ]
}

/// Decoding what was encoded gives the word back.
pub proof fn lemma_word_round_trip(word: u32)
    ensures
        bytes_of_word(word).len() == 4,
        word_of_bytes(bytes_of_word(word)) == word,
{
}

/// `byteorder::LittleEndian::read_u32`: the little-endian value of the first
/// four bytes of `buf`. The outside function panics on a shorter slice, which
/// the precondition leaves out.
#[verifier::external_body]
pub(crate) fn read_u32(buf: &[u8]) -> (word: u32)
    requires
        buf@.len() >= 4,
    ensures
        word == word_of_bytes(buf@),
{
    LittleEndian::read_u32(buf)
}

/// `byteorder::LittleEndian::write_u32`: overwrites the first four bytes of
/// `buf` with the little-endian bytes of `word` and leaves the rest as it
/// was. The outside function panics on a shorter slice, which the
/// precondition leaves out.
#[verifier::external_body]
pub(crate) fn write_u32(buf: &mut [u8], word: u32)
    requires
        old(buf)@.len() >= 4,
    ensures
        final(buf)@ == bytes_of_word(word) + old(buf)@.skip(4),
{
    LittleEndian::write_u32(buf, word)
}

} // verus!
