//! The bytes of 32-bit words as they lie in memory.
//!
//! Vertex, index and uniform data are assembled as sequences of 32-bit words
//! and handed to the device as bytes. The bytes of a word lie in the byte
//! order of the machine, which is the same for every buffer that a process
//! builds.

use vstd::prelude::*;
use vstd::endian::{endianness, Endian};

verus! {

/// Byte `k` of a word, counted from the least significant byte.
pub open spec fn word_byte(word: u32, k: int) -> u8 {
    if k == 0 {
        (word & 0xff) as u8
    } else if k == 1 {
        ((word >> 8) & 0xff) as u8
    } else if k == 2 {
        ((word >> 16) & 0xff) as u8
    } else {
        ((word >> 24) & 0xff) as u8
    }
}

/// The place, counted from the least significant byte, of the byte that lies
/// at offset `k` inside a word.
pub open spec fn byte_place(endian: Endian, k: int) -> int {
    match endian {
        Endian::Little => k,
        Endian::Big => 3 - k,
    }
}

/// The bytes of `words` in the given byte order: four bytes for each word,
/// the words in their order.
pub open spec fn image(words: Seq<u32>, endian: Endian) -> Seq<u8> {
    Seq::new(4 * words.len(), |i: int| word_byte(words[i / 4], byte_place(endian, i % 4)))
}

/// The bytes of `words` as they lie in the memory of this machine.
pub open spec fn memory_image(words: Seq<u32>) -> Seq<u8> {
    image(words, endianness())
}

/// Reinterprets words as bytes through `bytemuck::cast_slice` and copies
/// them out.
///
/// The cast keeps the memory as it is: four bytes per word, the words in
/// their order, each word in the byte order of the machine. Casting to bytes
/// cannot fail, since a byte has no alignment and any length is a whole
/// number of bytes.
#[verifier::external_body]
fn cast_words(words: &[u32]) -> (bytes: Vec<u8>)
    ensures
        bytes@ == memory_image(words@),
{
    bytemuck::cast_slice::<u32, u8>(words).to_vec()
}

/// The bytes of `words` as they lie in memory.
pub fn words_to_bytes(words: &Vec<u32>) -> (bytes: Vec<u8>)
    ensures
        bytes@ == memory_image(words@),
        bytes@.len() == 4 * words@.len(),
{
    cast_words(words.as_slice())
}

/// The image of a run of words is the matching run of bytes of the image:
/// words `from..to` lie at bytes `4 * from..4 * to`.
pub proof fn lemma_image_subrange(words: Seq<u32>, endian: Endian, from: int, to: int)
    requires
        0 <= from <= to <= words.len(),
    ensures
        image(words, endian).subrange(4 * from, 4 * to) == image(words.subrange(from, to), endian),
{
    let whole = image(words, endian);
    let part = image(words.subrange(from, to), endian);
    assert forall|i: int| 0 <= i < 4 * (to - from) implies whole[4 * from + i] == part[i] by {
        assert((4 * from + i) / 4 == from + i / 4);
        assert((4 * from + i) % 4 == i % 4);
    }
    assert(whole.subrange(4 * from, 4 * to) =~= part);
}

/// Every byte of the image of zero words is zero.
pub proof fn lemma_image_of_zeros(words: Seq<u32>, endian: Endian)
    requires
        forall|i: int| 0 <= i < words.len() ==> words[i] == 0,
    ensures
        forall|i: int| 0 <= i < 4 * words.len() ==> #[trigger] image(words, endian)[i] == 0,
{
    assert(0u32 & 0xff == 0) by (bit_vector);
    assert((0u32 >> 8) & 0xff == 0) by (bit_vector);
    assert((0u32 >> 16) & 0xff == 0) by (bit_vector);
    assert((0u32 >> 24) & 0xff == 0) by (bit_vector);
    assert forall|i: int| 0 <= i < 4 * words.len() implies #[trigger] image(words, endian)[i]
        == 0 by {
        assert(words[i / 4] == 0);
    }
}

/// A word is determined by its four bytes.
pub proof fn lemma_word_bytes_injective(a: u32, b: u32)
    requires
        forall|k: int| 0 <= k < 4 ==> word_byte(a, k) == word_byte(b, k),
    ensures
        a == b,
{
    assert(word_byte(a, 0) == word_byte(b, 0));
    assert(word_byte(a, 1) == word_byte(b, 1));
    assert(word_byte(a, 2) == word_byte(b, 2));
    assert(word_byte(a, 3) == word_byte(b, 3));
    assert(a == b) by (bit_vector)
        requires
            (a & 0xff) as u8 == (b & 0xff) as u8,
            ((a >> 8) & 0xff) as u8 == ((b >> 8) & 0xff) as u8,
            ((a >> 16) & 0xff) as u8 == ((b >> 16) & 0xff) as u8,
            ((a >> 24) & 0xff) as u8 == ((b >> 24) & 0xff) as u8,
    ;
}

/// Words are determined by their image: two sequences of words with the same
/// bytes in the same byte order are the same sequence.
pub proof fn lemma_image_injective(a: Seq<u32>, b: Seq<u32>, endian: Endian)
    requires
        image(a, endian) == image(b, endian),
    ensures
        a == b,
{
    assert(image(a, endian).len() == 4 * a.len());
    assert(image(b, endian).len() == 4 * b.len());
    assert(a.len() == b.len());
    assert forall|i: int| 0 <= i < a.len() implies a[i] == b[i] by {
        assert forall|k: int| 0 <= k < 4 implies word_byte(a[i], k) == word_byte(b[i], k) by {
            let offset = byte_place(endian, k);
            let at = 4 * i + offset;
            assert(at / 4 == i);
            assert(at % 4 == offset);
            assert(byte_place(endian, offset) == k);
            assert(image(a, endian)[at] == word_byte(a[i], k));
            assert(image(b, endian)[at] == word_byte(b[i], k));
        }
        lemma_word_bytes_injective(a[i], b[i]);
    }
    assert(a =~= b);
}

} // verus!
