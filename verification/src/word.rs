//! The 16-bit register words of the device and their transfer order.
//!
//! Every register of the INA3221 is one 16-bit word that travels over I2C
//! most significant byte first.
use vstd::prelude::*;

verus! {

/// The word that two bytes received most significant byte first denote.
pub open spec fn word_of_be_bytes(bytes: Seq<u8>) -> int
    recommends
        bytes.len() == 2,
{
    bytes[0] * 256 + bytes[1]
}

/// Reads a register word from the two bytes the device sent, the most
/// significant byte first.
pub fn word_from_be_bytes(bytes: [u8; 2]) -> (word: u16)
    ensures
        word == word_of_be_bytes(bytes@),
        word == bytes@[0] as int * 256 + bytes@[1] as int,
        word / 256 == bytes@[0],
        word % 256 == bytes@[1],
{
    let high: u16 = bytes[0] as u16;
    let low: u16 = bytes[1] as u16;
    high * 256 + low
}

/// Splits a register word into the two bytes to send, the most
/// significant byte first.
pub fn word_to_be_bytes(word: u16) -> (bytes: [u8; 2])
    ensures
        bytes@.len() == 2,
        word_of_be_bytes(bytes@) == word,
        bytes@[0] == word / 256,
        bytes@[1] == word % 256,
{
    let high: u8 = (word / 256) as u8;
    let low: u8 = (word % 256) as u8;
    [high, low]
}

/// The word of two bytes is the first byte times 256 plus the second:
/// the most significant byte travels first.
pub proof fn lemma_word_of_be_bytes_is_big_endian(b0: u8, b1: u8)
    ensures
        word_of_be_bytes(seq![b0, b1]) == b0 as int * 256 + b1 as int,
        0 <= word_of_be_bytes(seq![b0, b1]) <= u16::MAX,
{
}

/// Decoding the bytes that encoding a word yields gives the word back.
pub proof fn lemma_word_bytes_roundtrip(word: u16)
    ensures
        word_of_be_bytes(seq![(word / 256) as u8, (word % 256) as u8]) == word,
{
}

/// Encoding the word that two bytes denote gives the two bytes back.
pub proof fn lemma_bytes_word_roundtrip(bytes: Seq<u8>)
    requires
        bytes.len() == 2,
    ensures
        0 <= word_of_be_bytes(bytes) <= u16::MAX,
        word_of_be_bytes(bytes) / 256 == bytes[0],
        word_of_be_bytes(bytes) % 256 == bytes[1],
{
}

} // verus!
