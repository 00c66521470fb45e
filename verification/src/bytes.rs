//! Cells as the bytes that a GPU buffer is filled with.

use vstd::prelude::*;
use vstd::slice::slice_to_vec;

verus! {

/// Byte `k` of `word`, counted from the least significant one.
pub open spec fn byte_of(word: u32, k: int) -> u8 {
    if k == 0 {
        (word % 0x100) as u8
    } else if k == 1 {
        (word / 0x100 % 0x100) as u8
    } else if k == 2 {
        (word / 0x1_0000 % 0x100) as u8
    } else {
        (word / 0x100_0000 % 0x100) as u8
    }
}

/// The words laid out one after the other, least significant byte first.
pub open spec fn little_endian(words: Seq<u32>) -> Seq<u8> {
    Seq::new(4 * words.len(), |i: int| byte_of(words[i / 4], i % 4))
}

/// The words laid out one after the other, most significant byte first.
pub open spec fn big_endian(words: Seq<u32>) -> Seq<u8> {
    Seq::new(4 * words.len(), |i: int| byte_of(words[i / 4], 3 - i % 4))
}

/// The words laid out one after the other in the byte order that `big`
/// selects: most significant byte first where it is set, least significant
/// byte first where it is not.
pub open spec fn in_order(words: Seq<u32>, big: bool) -> Seq<u8> {
    if big {
        big_endian(words)
    } else {
        little_endian(words)
    }
}

/// Whether `bytes` is what `words` look like in memory, in one of the two
/// byte orders that a machine can have.
pub open spec fn in_memory(words: Seq<u32>, bytes: Seq<u8>) -> bool {
    bytes == in_order(words, false) || bytes == in_order(words, true)
}

/// The word that the four bytes of `bytes` from place `at` make in the byte
/// order that `big` selects.
pub open spec fn read_word(bytes: Seq<u8>, at: int, big: bool) -> u32 {
    if big {
        (bytes[at] * 0x100_0000 + bytes[at + 1] * 0x1_0000 + bytes[at + 2] * 0x100 + bytes[at
            + 3]) as u32
    } else {
        (bytes[at] + bytes[at + 1] * 0x100 + bytes[at + 2] * 0x1_0000 + bytes[at + 3]
            * 0x100_0000) as u32
    }
}

/// A word is made of its four bytes, in either order.
pub proof fn lemma_word_of_its_bytes(word: u32)
    ensures
        byte_of(word, 0) + byte_of(word, 1) * 0x100 + byte_of(word, 2) * 0x1_0000 + byte_of(
            word,
            3,
        ) * 0x100_0000 == word,
{
}

/// `bytemuck::cast_slice` from `u32` to `u8`. The cast never fails in this
/// direction: a byte has no alignment to meet and four bytes make each word.
/// It hands back the same memory, four bytes for each word and in the order
/// of the words, each word in the byte order of the machine. Trusted, not
/// proved.
#[verifier::external_body]
fn cast_words(words: &[u32]) -> (bytes: &[u8])
    ensures
        in_memory(words@, bytes@),
{
    bytemuck::cast_slice(words)
}

/// The bytes of `words` as they lie in memory, ready to fill a GPU buffer.
pub fn words_to_bytes(words: &[u32]) -> (bytes: Vec<u8>)
    ensures
        in_memory(words@, bytes@),
        bytes@.len() == 4 * words@.len(),
{
    slice_to_vec(cast_words(words))
}

} // verus!
