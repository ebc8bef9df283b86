//! What every call that writes or reads words and coils does.

use crate::wire::{
    coils_bytes, lemma_coil_byte_bit, lemma_word_bytes, put_coils, put_u16, put_words, read_coils,
    read_u16, read_words,
};
use vstd::prelude::*;

verus! {

/// A word is written behind what was there, in two bytes of which the first counts 256 times
/// as much as the second.
pub proof fn law_word_is_written(out: &mut Vec<u8>, word: u16)
    requires
        call_ensures(put_u16, (out, word), ()),
    ensures
        ({
            let (before, after) = (old(out)@, final(out)@);
            let n = before.len() as int;
            &&& after.len() == n + 2
            &&& after.take(n) == before
            &&& after[n] * 256 + after[n + 1] == word
        }),
{
}

/// A word can be read wherever there are two bytes, and the first counts 256 times as much as
/// the second.
pub proof fn law_word_is_read(bytes: &[u8], i: usize, word: u16)
    requires
        i + 1 < bytes@.len(),
        call_ensures(read_u16, (bytes, i), word),
    ensures
        call_requires(read_u16, (bytes, i)),
        word == bytes@[i as int] * 256 + bytes@[i + 1],
{
}

/// Words are written behind what was there, in their order, each as two bytes of which the
/// first counts 256 times as much as the second.
pub proof fn law_words_are_written(out: &mut Vec<u8>, words: &[u16])
    requires
        call_ensures(put_words, (out, words), ()),
    ensures
        ({
            let (before, after) = (old(out)@, final(out)@);
            let n = before.len() as int;
            &&& after.len() == n + 2 * words@.len()
            &&& after.take(n) == before
            &&& forall|i: int|
                0 <= i < words@.len() ==> after[n + 2 * i] * 256 + after[n + 2 * i + 1]
                    == #[trigger] words@[i]
        }),
{
    let (before, after) = (old(out)@, final(out)@);
    let n = before.len() as int;
    assert(after.take(n) =~= before);
    assert forall|i: int| 0 <= i < words@.len() implies after[n + 2 * i] * 256 + after[n + 2 * i
        + 1] == #[trigger] words@[i] by {
        lemma_word_bytes(words@, i);
    }
}

/// Words can be read wherever there are enough bytes. They come in the order of the bytes, each
/// from two of them, of which the first counts 256 times as much as the second.
pub proof fn law_words_are_read(bytes: &[u8], from: usize, n: usize, words: Vec<u16>)
    requires
        from + 2 * n <= bytes@.len(),
        call_ensures(read_words, (bytes, from, n), words),
    ensures
        call_requires(read_words, (bytes, from, n)),
        words@.len() == n,
        forall|i: int|
            0 <= i < n ==> #[trigger] words@[i] == bytes@[from + 2 * i] * 256 + bytes@[from + 2 * i
                + 1],
{
}

/// Coils are written behind what was there, eight to a byte and the first of them in the lowest
/// bit. The bits that are left over in the last byte are zero.
pub proof fn law_coils_are_written(out: &mut Vec<u8>, coils: &[bool])
    requires
        call_ensures(put_coils, (out, coils), ()),
    ensures
        ({
            let (before, after) = (old(out)@, final(out)@);
            let n = before.len() as int;
            &&& after.len() == n + (coils@.len() + 7) / 8
            &&& after.take(n) == before
            &&& forall|k: int, j: u8|
                0 <= k < (coils@.len() + 7) / 8 && j < 8 ==> (#[trigger] (after[n + k] >> j) & 1
                    == 1) == (8 * k + j < coils@.len() && coils@[8 * k + j])
        }),
{
    let (before, after) = (old(out)@, final(out)@);
    let n = before.len() as int;
    assert(after.take(n) =~= before);
    assert forall|k: int, j: u8| 0 <= k < (coils@.len() + 7) / 8 && j < 8 implies (#[trigger] (
    after[n + k] >> j) & 1 == 1) == (8 * k + j < coils@.len() && coils@[8 * k + j]) by {
        lemma_coil_byte_bit(coils@, k, j);
        assert(after[n + k] == coils_bytes(coils@)[k]);
    }
}

/// Coils can be read wherever there are enough bytes. The first eight come from the first byte,
/// lowest bit first, the next eight from the next byte.
pub proof fn law_coils_are_read(bytes: &[u8], from: usize, n: usize, coils: Vec<bool>)
    requires
        from + (n + 7) / 8 <= bytes@.len(),
        call_ensures(read_coils, (bytes, from, n), coils),
    ensures
        call_requires(read_coils, (bytes, from, n)),
        coils@.len() == n,
        forall|k: int, j: u8|
            0 <= k && j < 8 && 8 * k + j < n ==> coils@[8 * k + j] == (#[trigger] (bytes@[from + k]
                >> j) & 1 == 1),
{
    assert forall|k: int, j: u8| 0 <= k && j < 8 && 8 * k + j < n implies coils@[8 * k + j] == (
    #[trigger] (bytes@[from + k] >> j) & 1 == 1) by {
        assert((8 * k + j) / 8 == k && (8 * k + j) % 8 == j as int);
    }
}

} // verus!
