//! Sixteen-bit words and the two bytes they are made of, low byte first.

use vstd::prelude::*;

verus! {

/// The word with the given low and high byte.
pub open spec fn spec_join(low: u8, high: u8) -> u16 {
    (low + 256 * high) as u16
}

/// The word with the given low and high byte.
#[verifier::when_used_as_spec(spec_join)]
pub fn join(low: u8, high: u8) -> (word: u16)
    ensures
        word == spec_join(low, high),
{
    let low16: u16 = low as u16;
    let high16: u16 = high as u16;
    low16 + 256 * high16
}

/// The low byte of a word.
pub open spec fn spec_low_byte(word: u16) -> u8 {
    (word % 256) as u8
}

/// The low byte of a word.
#[verifier::when_used_as_spec(spec_low_byte)]
pub fn low_byte(word: u16) -> (byte: u8)
    ensures
        byte == spec_low_byte(word),
{
    (word % 256) as u8
}

/// The high byte of a word.
pub open spec fn spec_high_byte(word: u16) -> u8 {
    (word / 256) as u8
}

/// The high byte of a word.
#[verifier::when_used_as_spec(spec_high_byte)]
pub fn high_byte(word: u16) -> (byte: u8)
    ensures
        byte == spec_high_byte(word),
{
    (word / 256) as u8
}

/// A byte sequence cut or filled with zeros to `len` bytes.
pub open spec fn padded(bytes: Seq<u8>, len: nat) -> Seq<u8> {
    Seq::new(
        len,
        |i: int|
            if i < bytes.len() {
                bytes[i]
            } else {
                0u8
            },
    )
}

/// Cuts or fills `bytes` with zeros to `len` bytes.
pub fn pad(bytes: Vec<u8>, len: usize) -> (image: Vec<u8>)
    ensures
        image@ == padded(bytes@, len as nat),
{
    let mut image = bytes;
    image.resize(len, 0u8);
    assert(image@ =~= padded(bytes@, len as nat)) by {
        if len > bytes.len() {
            assert forall|i: int| 0 <= i < len implies image@[i] == padded(bytes@, len as nat)[i] by {
                if i < bytes.len() {
                    assert(image@.subrange(0, bytes.len() as int)[i] == bytes@[i]);
                }
            }
        }
    }
    image
}

/// Splitting a word and joining the halves gives the word back, and the
/// other way round.
pub proof fn join_inverts_split(word: u16, low: u8, high: u8)
    ensures
        spec_join(spec_low_byte(word), spec_high_byte(word)) == word,
        spec_low_byte(spec_join(low, high)) == low,
        spec_high_byte(spec_join(low, high)) == high,
{
}

} // verus!
