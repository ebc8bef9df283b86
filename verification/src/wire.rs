//! Big-endian words and packed coils, the two encodings that Modbus payloads are made of.

use vstd::prelude::*;

verus! {

/// The two bytes of a word, high byte first.
pub open spec fn u16_bytes(word: u16) -> Seq<u8> {
    seq![(word / 256) as u8, (word % 256) as u8]
}

/// The word whose high byte stands at `i`.
pub open spec fn u16_at(bytes: Seq<u8>, i: int) -> u16 {
    (bytes[i] * 256 + bytes[i + 1]) as u16
}

/// The bytes of a sequence of words, word after word.
pub open spec fn words_bytes(words: Seq<u16>) -> Seq<u8> {
    Seq::new((2 * words.len()) as nat, |i: int| u16_bytes(words[i / 2])[i % 2])
}

/// The `n` words that start at `from`.
pub open spec fn words_at(bytes: Seq<u8>, from: int, n: nat) -> Seq<u16> {
    Seq::new(n, |i: int| u16_at(bytes, from + 2 * i))
}

/// The number of bytes that hold `n` coils, eight to a byte.
pub open spec fn packed_len(n: nat) -> nat {
    (n + 7) / 8
}

/// Bit `j` of a byte, counted from the least significant one.
pub open spec fn bit_of(byte: u8, j: u8) -> bool {
    (byte >> j) & 1 == 1
}

/// The byte in which only bit `j` may be set, and is set if `on`.
pub open spec fn bit(on: bool, j: u8) -> u8 {
    if on {
        1u8 << j
    } else {
        0u8
    }
}

/// Coil `i`; what lies beyond the last coil is off.
pub open spec fn coil(coils: Seq<bool>, i: int) -> bool {
    0 <= i < coils.len() && coils[i]
}

/// The byte that holds the coils `8 * k` to `8 * k + 7`, the first in its lowest bit.
pub open spec fn coil_byte(coils: Seq<bool>, k: int) -> u8 {
    bit(coil(coils, 8 * k), 0) | bit(coil(coils, 8 * k + 1), 1) | bit(coil(coils, 8 * k + 2), 2)
        | bit(coil(coils, 8 * k + 3), 3) | bit(coil(coils, 8 * k + 4), 4) | bit(
        coil(coils, 8 * k + 5),
        5,
    ) | bit(coil(coils, 8 * k + 6), 6) | bit(coil(coils, 8 * k + 7), 7)
}

/// The packed form of a sequence of coils.
pub open spec fn coils_bytes(coils: Seq<bool>) -> Seq<u8> {
    Seq::new(packed_len(coils.len()), |k: int| coil_byte(coils, k))
}

/// The `n` coils whose packed form starts at `from`.
pub open spec fn coils_at(bytes: Seq<u8>, from: int, n: nat) -> Seq<bool> {
    Seq::new(n, |i: int| bit_of(bytes[from + i / 8], (i % 8) as u8))
}

/// Appends a word.
pub fn put_u16(out: &mut Vec<u8>, word: u16)
    ensures
        final(out)@ == old(out)@ + u16_bytes(word),
{
    out.push((word / 256) as u8);
    out.push((word % 256) as u8);
    assert(out@ =~= old(out)@ + u16_bytes(word));
}

/// Reads the word whose high byte stands at `i`.
pub fn read_u16(bytes: &[u8], i: usize) -> (word: u16)
    requires
        i + 1 < bytes@.len(),
    ensures
        word == u16_at(bytes@, i as int),
{
    (bytes[i] as u16) * 256 + (bytes[i + 1] as u16)
}

/// Appends the words of a slice.
pub fn put_words(out: &mut Vec<u8>, words: &[u16])
    ensures
        final(out)@ == old(out)@ + words_bytes(words@),
{
    let mut i: usize = 0;
    while i < words.len()
        invariant
            i <= words@.len(),
            out@ =~= old(out)@ + words_bytes(words@.take(i as int)),
        decreases words@.len() - i,
    {
        let ghost before = out@;
        put_u16(out, words[i]);
        proof {
            let shorter = words@.take(i as int);
            let longer = words@.take(i + 1);
            assert forall|j: int| 0 <= j < 2 * i implies words_bytes(shorter)[j] == words_bytes(longer)[j] by {
                assert(shorter[j / 2] == longer[j / 2]);
            }
            assert(words_bytes(longer) =~= words_bytes(shorter) + u16_bytes(words@[i as int]));
        }
        i += 1;
    }
    assert(words@.take(i as int) =~= words@);
}

/// Reads the `n` words that start at `from`.
pub fn read_words(bytes: &[u8], from: usize, n: usize) -> (words: Vec<u16>)
    requires
        from + 2 * n <= bytes@.len(),
    ensures
        words@ == words_at(bytes@, from as int, n as nat),
{
    let len: usize = bytes.len();
    let mut words: Vec<u16> = Vec::new();
    let mut i: usize = 0;
    while i < n
        invariant
            i <= n,
            from + 2 * n <= bytes@.len(),
            len == bytes@.len(),
            words@ =~= words_at(bytes@, from as int, i as nat),
        decreases n - i,
    {
        words.push(read_u16(bytes, from + 2 * i));
        i += 1;
    }
    words
}

/// The byte for coil `i` alone, placed at bit `j`.
fn coil_bit(coils: &[bool], i: usize, j: u8) -> (byte: u8)
    requires
        j < 8,
    ensures
        byte == bit(coil(coils@, i as int), j),
{
    if i < coils.len() && coils[i] {
        1u8 << j
    } else {
        0u8
    }
}

/// Appends the packed form of a slice of coils.
pub fn put_coils(out: &mut Vec<u8>, coils: &[bool])
    requires
        coils@.len() + 7 <= usize::MAX,
    ensures
        final(out)@ == old(out)@ + coils_bytes(coils@),
{
    let n: usize = (coils.len() + 7) / 8;
    let mut k: usize = 0;
    while k < n
        invariant
            k <= n,
            n == packed_len(coils@.len()),
            coils@.len() + 7 <= usize::MAX,
            out@ =~= old(out)@ + coils_bytes(coils@).take(k as int),
        decreases n - k,
    {
        let i: usize = 8 * k;
        let byte: u8 = coil_bit(coils, i, 0) | coil_bit(coils, i + 1, 1) | coil_bit(coils, i + 2, 2)
            | coil_bit(coils, i + 3, 3) | coil_bit(coils, i + 4, 4) | coil_bit(coils, i + 5, 5)
            | coil_bit(coils, i + 6, 6) | coil_bit(coils, i + 7, 7);
        out.push(byte);
        k += 1;
    }
}

/// Unpacks the `n` coils whose packed form starts at `from`.
pub fn read_coils(bytes: &[u8], from: usize, n: usize) -> (coils: Vec<bool>)
    requires
        from + packed_len(n as nat) <= bytes@.len(),
    ensures
        coils@ == coils_at(bytes@, from as int, n as nat),
{
    let len: usize = bytes.len();
    let mut coils: Vec<bool> = Vec::new();
    let mut i: usize = 0;
    while i < n
        invariant
            i <= n,
            from + packed_len(n as nat) <= bytes@.len(),
            len == bytes@.len(),
            coils@ =~= coils_at(bytes@, from as int, i as nat),
        decreases n - i,
    {
        let j: u8 = (i % 8) as u8;
        coils.push((bytes[from + i / 8] >> j) & 1 == 1);
        i += 1;
    }
    coils
}

/// The bytes of word `i` stand at `2 * i` and `2 * i + 1`.
pub(crate) proof fn lemma_word_bytes(words: Seq<u16>, i: int)
    requires
        0 <= i < words.len(),
    ensures
        words_bytes(words)[2 * i] == (words[i] / 256) as u8,
        words_bytes(words)[2 * i + 1] == (words[i] % 256) as u8,
{
    assert((2 * i) / 2 == i && (2 * i) % 2 == 0);
    assert((2 * i + 1) / 2 == i && (2 * i + 1) % 2 == 1);
}

/// A word is read where its two bytes stand, whatever stands around them.
proof fn lemma_word_at(before: Seq<u8>, data: Seq<u8>, after: Seq<u8>, i: int, word: u16)
    requires
        0 <= i < data.len() - 1,
        data[i] == (word / 256) as u8,
        data[i + 1] == (word % 256) as u8,
    ensures
        u16_at(before + data + after, before.len() + i) == word,
{
    let all = before + data + after;
    assert(all[before.len() + i] == data[i]);
    assert(all[before.len() + i + 1] == data[i + 1]);
}

/// Words survive being written and read back, whatever stands around them.
pub proof fn law_words_round_trip(before: Seq<u8>, words: Seq<u16>, after: Seq<u8>)
    ensures
        words_at(before + words_bytes(words) + after, before.len() as int, words.len()) == words,
{
    let from = before.len() as int;
    let data = words_bytes(words);
    let all = before + data + after;
    assert forall|i: int| 0 <= i < words.len() implies words_at(all, from, words.len())[i]
        == words[i] by {
        lemma_word_bytes(words, i);
        lemma_word_at(before, data, after, 2 * i, words[i]);
    }
    assert(words_at(all, from, words.len()) =~= words);
}

proof fn lemma_bits(
    a0: bool,
    a1: bool,
    a2: bool,
    a3: bool,
    a4: bool,
    a5: bool,
    a6: bool,
    a7: bool,
    j: u8,
)
    by (bit_vector)
    requires
        j < 8,
    ensures
        bit_of(
            bit(a0, 0) | bit(a1, 1) | bit(a2, 2) | bit(a3, 3) | bit(a4, 4) | bit(a5, 5) | bit(a6, 6)
                | bit(a7, 7),
            j,
        ) == (if j == 0 {
            a0
        } else if j == 1 {
            a1
        } else if j == 2 {
            a2
        } else if j == 3 {
            a3
        } else if j == 4 {
            a4
        } else if j == 5 {
            a5
        } else if j == 6 {
            a6
        } else {
            a7
        }),
{
}

/// Bit `j` of byte `k` of the packed form is coil `8 * k + j`.
pub proof fn lemma_coil_byte_bit(coils: Seq<bool>, k: int, j: u8)
    requires
        j < 8,
    ensures
        bit_of(coil_byte(coils, k), j) == coil(coils, 8 * k + j),
{
    lemma_bits(
        coil(coils, 8 * k),
        coil(coils, 8 * k + 1),
        coil(coils, 8 * k + 2),
        coil(coils, 8 * k + 3),
        coil(coils, 8 * k + 4),
        coil(coils, 8 * k + 5),
        coil(coils, 8 * k + 6),
        coil(coils, 8 * k + 7),
        j,
    );
}

/// Unpacking `n` coils out of a packed form gives the coils that were packed, followed by
/// coils that are off where `n` reaches into the padding.
pub proof fn law_coils_round_trip(before: Seq<u8>, coils: Seq<bool>, after: Seq<u8>, n: nat)
    requires
        n <= 8 * packed_len(coils.len()),
    ensures
        coils_at(before + coils_bytes(coils) + after, before.len() as int, n) == Seq::new(
            n,
            |i: int| coil(coils, i),
        ),
{
    let all = before + coils_bytes(coils) + after;
    assert forall|i: int| 0 <= i < n implies #[trigger] bit_of(
        all[before.len() + i / 8],
        (i % 8) as u8,
    ) == coil(coils, i) by {
        assert(i / 8 < packed_len(coils.len()));
        assert(all[before.len() + i / 8] == coils_bytes(coils)[i / 8]);
        lemma_coil_byte_bit(coils, i / 8, (i % 8) as u8);
    }
    assert(coils_at(all, before.len() as int, n) =~= Seq::new(n, |i: int| coil(coils, i)));
}

} // verus!
