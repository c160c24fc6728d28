//! Buffer contents: 32-bit words and 16-bit halves, and the bytes they occupy
//! in memory.

use vstd::prelude::*;

verus! {

/// The four bytes of a word, least significant first.
pub open spec fn word_le_bytes(word: u32) -> Seq<u8> {
    seq![
        (word % 256) as u8,
        ((word / 256) % 256) as u8,
        ((word / 65536) % 256) as u8,
        ((word / 16777216) % 256) as u8,
    ]
}

/// The four bytes of a word as the host stores them: least significant first
/// on a little-endian host, most significant first on a big-endian one.
pub open spec fn word_bytes(word: u32) -> Seq<u8> {
    match vstd::endian::endianness() {
        vstd::endian::Endian::Little => word_le_bytes(word),
        vstd::endian::Endian::Big => word_le_bytes(word).reverse(),
    }
}

/// The bytes that a run of words occupies in memory: four per word, word
/// after word.
pub open spec fn native_bytes(words: Seq<u32>) -> Seq<u8> {
    Seq::new(4 * words.len(), |i: int| word_bytes(words[i / 4])[i % 4])
}

/// The two bytes of a half, the less significant first.
pub open spec fn half_le_bytes(half: u16) -> Seq<u8> {
    seq![(half % 256) as u8, (half / 256) as u8]
}

/// The two bytes of a half as the host stores them: the less significant
/// first on a little-endian host, the more significant first on a big-endian
/// one.
pub open spec fn half_bytes(half: u16) -> Seq<u8> {
    match vstd::endian::endianness() {
        vstd::endian::Endian::Little => half_le_bytes(half),
        vstd::endian::Endian::Big => half_le_bytes(half).reverse(),
    }
}

/// The bytes that a run of halves occupies in memory: two per half, half
/// after half.
pub open spec fn native_half_bytes(halves: Seq<u16>) -> Seq<u8> {
    Seq::new(2 * halves.len(), |i: int| half_bytes(halves[i / 2])[i % 2])
}

/// Half `half` of a run occupies the two bytes from `2 * half` on.
pub proof fn lemma_native_half_at(halves: Seq<u16>, half: int)
    requires
        0 <= half < halves.len(),
    ensures
        native_half_bytes(halves).len() == 2 * halves.len(),
        native_half_bytes(halves).subrange(2 * half, 2 * half + 2) == half_bytes(halves[half]),
{
    assert forall|k: int| 0 <= k < 2 implies native_half_bytes(halves)[2 * half + k] == half_bytes(
        halves[half],
    )[k] by {
        assert((2 * half + k) / 2 == half);
        assert((2 * half + k) % 2 == k);
    }
}

/// The words from `from` up to `to` of a run occupy the bytes from `4 * from`
/// up to `4 * to` of the run's bytes.
pub proof fn lemma_native_bytes_subrange(words: Seq<u32>, from: int, to: int)
    requires
        0 <= from <= to <= words.len(),
    ensures
        native_bytes(words).subrange(4 * from, 4 * to) == native_bytes(words.subrange(from, to)),
{
    let part = words.subrange(from, to);
    assert forall|i: int| 0 <= i < 4 * (to - from) implies native_bytes(words)[4 * from + i]
        == native_bytes(part)[i] by {
        assert((4 * from + i) / 4 == from + i / 4);
        assert((4 * from + i) % 4 == i % 4);
    }
    assert(native_bytes(words).subrange(4 * from, 4 * to) =~= native_bytes(part));
}

/// The bytes of two runs of words, one after the other, are the bytes of the
/// first followed by the bytes of the second.
pub proof fn lemma_native_bytes_concat(first: Seq<u32>, second: Seq<u32>)
    ensures
        native_bytes(first + second) == native_bytes(first) + native_bytes(second),
{
    let whole = first + second;
    lemma_native_bytes_subrange(whole, 0, first.len() as int);
    lemma_native_bytes_subrange(whole, first.len() as int, whole.len() as int);
    assert(whole.subrange(0, first.len() as int) == first);
    assert(whole.subrange(first.len() as int, whole.len() as int) == second);
    let middle = 4 * first.len() as int;
    let end = 4 * whole.len() as int;
    assert(native_bytes(whole) =~= native_bytes(whole).subrange(0, middle) + native_bytes(
        whole,
    ).subrange(middle, end));
}

/// Nothing is lost in the bytes: two runs of words with the same bytes are
/// the same run.
pub proof fn lemma_native_bytes_injective(first: Seq<u32>, second: Seq<u32>)
    requires
        native_bytes(first) == native_bytes(second),
    ensures
        first == second,
{
    assert(native_bytes(first).len() == 4 * first.len());
    assert(native_bytes(second).len() == 4 * second.len());
    assert(first.len() == second.len());
    assert forall|i: int| 0 <= i < first.len() implies first[i] == second[i] by {
        let a = first[i];
        let b = second[i];
        assert forall|k: int| 0 <= k < 4 implies word_bytes(a)[k] == word_bytes(b)[k] by {
            assert((4 * i + k) / 4 == i);
            assert((4 * i + k) % 4 == k);
            assert(native_bytes(first)[4 * i + k] == word_bytes(a)[k]);
            assert(native_bytes(second)[4 * i + k] == word_bytes(b)[k]);
        }
        assert(word_le_bytes(a)[0] == word_le_bytes(b)[0] && word_le_bytes(a)[1] == word_le_bytes(
            b,
        )[1] && word_le_bytes(a)[2] == word_le_bytes(b)[2] && word_le_bytes(a)[3] == word_le_bytes(
            b,
        )[3]) by {
            assert(word_bytes(a)[0] == word_bytes(b)[0]);
            assert(word_bytes(a)[1] == word_bytes(b)[1]);
            assert(word_bytes(a)[2] == word_bytes(b)[2]);
            assert(word_bytes(a)[3] == word_bytes(b)[3]);
        }
        lemma_word_of_le_bytes(a);
        lemma_word_of_le_bytes(b);
    }
    assert(first =~= second);
}

/// A word is the sum of its four bytes, each at its place.
proof fn lemma_word_of_le_bytes(word: u32)
    ensures
        word == word_le_bytes(word)[0] + 256 * word_le_bytes(word)[1] + 65536 * word_le_bytes(
            word,
        )[2] + 16777216 * word_le_bytes(word)[3],
{
}

/// Appends the words of an array to `out`.
pub fn append_array<const N: usize>(out: &mut Vec<u32>, words: &[u32; N])
    ensures
        final(out)@ == old(out)@ + words@,
{
    let mut i: usize = 0;
    while i < N
        invariant
            i <= N,
            words@.len() == N,
            out@ == old(out)@ + words@.take(i as int),
        decreases N - i,
    {
        out.push(words[i]);
        i = i + 1;
    }
    assert(words@.take(N as int) == words@);
}

/// Whether the host stores the least significant byte of a word first: read
/// off the bytes that the word one occupies.
pub fn host_is_little_endian() -> (little: bool)
    ensures
        little == (vstd::endian::endianness() is Little),
{
    let mut probe: Vec<u32> = Vec::new();
    probe.push(1);
    let bytes = words_to_bytes(&probe);
    bytes[0] == 1
}

/// The bytes that a run of halves occupies in memory, in the host's byte
/// order.
pub fn halves_to_bytes(halves: &Vec<u16>) -> (bytes: Vec<u8>)
    ensures
        bytes@ == native_half_bytes(halves@),
{
    let little: bool = host_is_little_endian();
    let mut bytes: Vec<u8> = Vec::new();
    let mut i: usize = 0;
    while i < halves.len()
        invariant
            i <= halves.len(),
            little == (vstd::endian::endianness() is Little),
            bytes@ == native_half_bytes(halves@.take(i as int)),
        decreases halves.len() - i,
    {
        let half: u16 = halves[i];
        let low: u8 = (half % 256) as u8;
        let high: u8 = (half / 256) as u8;
        if little {
            bytes.push(low);
            bytes.push(high);
        } else {
            bytes.push(high);
            bytes.push(low);
        }
        i = i + 1;
        assert(bytes@ =~= native_half_bytes(halves@.take(i as int))) by {
            let now = halves@.take(i as int);
            assert forall|k: int| 0 <= k < 2 * i implies bytes@[k] == native_half_bytes(now)[k] by {
                if k >= 2 * (i - 1) {
                    assert(k / 2 == i - 1);
                }
            }
        }
    }
    bytes
}

/// `bytemuck::cast_slice` from `u32` to `u8`, copied into a vector. The cast
/// reads the memory of the words as bytes, so each word gives its four bytes
/// in the host's byte order, and it cannot fail, `u8` having no alignment.
#[verifier::external_body]
pub(crate) fn words_to_bytes(words: &Vec<u32>) -> (bytes: Vec<u8>)
    ensures
        bytes@ == native_bytes(words@),
{
    bytemuck::cast_slice::<u32, u8>(words.as_slice()).to_vec()
}

} // verus!
