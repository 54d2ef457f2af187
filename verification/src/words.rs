//! Little-endian streams of 16-bit and 32-bit words.
use vstd::prelude::*;
use vstd::bytes::{
    lemma_auto_spec_u16_to_from_le_bytes, lemma_auto_spec_u32_to_from_le_bytes,
    spec_u16_from_le_bytes, spec_u16_to_le_bytes, spec_u32_from_le_bytes, spec_u32_to_le_bytes,
    u16_from_le_bytes, u16_to_le_bytes, u32_from_le_bytes, u32_to_le_bytes,
};
use vstd::slice::slice_subrange;

verus! {

/// The 32-bit words read from `bytes` four at a time, each in little-endian
/// order; a trailing run of fewer than four bytes is ignored.
pub open spec fn decode_u32s(bytes: Seq<u8>) -> Seq<u32> {
    Seq::new(bytes.len() / 4, |i: int| spec_u32_from_le_bytes(bytes.subrange(4 * i, 4 * i + 4)))
}

/// The 16-bit words read from `bytes` two at a time, each in little-endian
/// order; a trailing odd byte is ignored.
pub open spec fn decode_u16s(bytes: Seq<u8>) -> Seq<u16> {
    Seq::new(bytes.len() / 2, |i: int| spec_u16_from_le_bytes(bytes.subrange(2 * i, 2 * i + 2)))
}

/// The little-endian bytes of each word of `words`, one word after the other.
pub open spec fn encode_u32s(words: Seq<u32>) -> Seq<u8>
    decreases words.len(),
{
    if words.len() == 0 {
        Seq::empty()
    } else {
        encode_u32s(words.drop_last()) + spec_u32_to_le_bytes(words.last())
    }
}

/// The little-endian bytes of each word of `words`, one word after the other.
pub open spec fn encode_u16s(words: Seq<u16>) -> Seq<u8>
    decreases words.len(),
{
    if words.len() == 0 {
        Seq::empty()
    } else {
        encode_u16s(words.drop_last()) + spec_u16_to_le_bytes(words.last())
    }
}

/// Reads `bytes` as consecutive little-endian 32-bit words.
pub fn decode_u32_words(bytes: &[u8]) -> (words: Vec<u32>)
    ensures
        words@ == decode_u32s(bytes@),
{
    let len = bytes.len();
    let n = len / 4;
    let mut words: Vec<u32> = Vec::new();
    let mut i: usize = 0;
    while i < n
        invariant
            len == bytes@.len(),
            n == len / 4,
            i <= n,
            words@.len() == i,
            forall|k: int| 0 <= k < i ==> #[trigger] words@[k] == decode_u32s(bytes@)[k],
        decreases n - i,
    {
        assert(4 * i + 4 <= bytes@.len()) by (nonlinear_arith)
            requires
                i < n,
                n == len / 4,
                len == bytes@.len(),
        ;
        let chunk = slice_subrange(bytes, 4 * i, 4 * i + 4);
        let w = u32_from_le_bytes(chunk);
        words.push(w);
        i = i + 1;
    }
    assert(words@ =~= decode_u32s(bytes@));
    words
}

/// Reads `bytes` as consecutive little-endian 16-bit words.
pub fn decode_u16_words(bytes: &[u8]) -> (words: Vec<u16>)
    ensures
        words@ == decode_u16s(bytes@),
{
    let len = bytes.len();
    let n = len / 2;
    let mut words: Vec<u16> = Vec::new();
    let mut i: usize = 0;
    while i < n
        invariant
            len == bytes@.len(),
            n == len / 2,
            i <= n,
            words@.len() == i,
            forall|k: int| 0 <= k < i ==> #[trigger] words@[k] == decode_u16s(bytes@)[k],
        decreases n - i,
    {
        assert(2 * i + 2 <= len);
        let chunk = slice_subrange(bytes, 2 * i, 2 * i + 2);
        let w = u16_from_le_bytes(chunk);
        words.push(w);
        i = i + 1;
    }
    assert(words@ =~= decode_u16s(bytes@));
    words
}

/// Writes `words` as consecutive little-endian 32-bit words.
pub fn encode_u32_words(words: &[u32]) -> (bytes: Vec<u8>)
    ensures
        bytes@ == encode_u32s(words@),
{
    let mut bytes: Vec<u8> = Vec::new();
    let mut i: usize = 0;
    while i < words.len()
        invariant
            i <= words@.len(),
            bytes@ == encode_u32s(words@.take(i as int)),
        decreases words@.len() - i,
    {
        let mut le = u32_to_le_bytes(words[i]);
        bytes.append(&mut le);
        assert(words@.take(i + 1).drop_last() =~= words@.take(i as int));
        i = i + 1;
    }
    assert(words@.take(words@.len() as int) =~= words@);
    bytes
}

/// Writes `words` as consecutive little-endian 16-bit words.
pub fn encode_u16_words(words: &[u16]) -> (bytes: Vec<u8>)
    ensures
        bytes@ == encode_u16s(words@),
{
    let mut bytes: Vec<u8> = Vec::new();
    let mut i: usize = 0;
    while i < words.len()
        invariant
            i <= words@.len(),
            bytes@ == encode_u16s(words@.take(i as int)),
        decreases words@.len() - i,
    {
        let mut le = u16_to_le_bytes(words[i]);
        bytes.append(&mut le);
        assert(words@.take(i + 1).drop_last() =~= words@.take(i as int));
        i = i + 1;
    }
    assert(words@.take(words@.len() as int) =~= words@);
    bytes
}

/// Writing words out takes four bytes per word, and the bytes of word `i`
/// are its little-endian bytes at offset `4 * i`.
pub proof fn lemma_encode_u32s_layout(words: Seq<u32>)
    ensures
        encode_u32s(words).len() == 4 * words.len(),
        forall|i: int|
            0 <= i < words.len() ==> #[trigger] encode_u32s(words).subrange(4 * i, 4 * i + 4)
                == spec_u32_to_le_bytes(words[i]),
    decreases words.len(),
{
    lemma_auto_spec_u32_to_from_le_bytes();
    if words.len() > 0 {
        let prefix = words.drop_last();
        lemma_encode_u32s_layout(prefix);
        let head = encode_u32s(prefix);
        let tail = spec_u32_to_le_bytes(words.last());
        assert forall|i: int| 0 <= i < words.len() implies #[trigger] encode_u32s(words).subrange(
            4 * i,
            4 * i + 4,
        ) == spec_u32_to_le_bytes(words[i]) by {
            if i < prefix.len() {
                assert(encode_u32s(words).subrange(4 * i, 4 * i + 4) =~= head.subrange(
                    4 * i,
                    4 * i + 4,
                ));
            } else {
                assert(encode_u32s(words).subrange(4 * i, 4 * i + 4) =~= tail);
            }
        }
    }
}

/// Writing words out takes two bytes per word, and the bytes of word `i`
/// are its little-endian bytes at offset `2 * i`.
pub proof fn lemma_encode_u16s_layout(words: Seq<u16>)
    ensures
        encode_u16s(words).len() == 2 * words.len(),
        forall|i: int|
            0 <= i < words.len() ==> #[trigger] encode_u16s(words).subrange(2 * i, 2 * i + 2)
                == spec_u16_to_le_bytes(words[i]),
    decreases words.len(),
{
    lemma_auto_spec_u16_to_from_le_bytes();
    if words.len() > 0 {
        let prefix = words.drop_last();
        lemma_encode_u16s_layout(prefix);
        let head = encode_u16s(prefix);
        let tail = spec_u16_to_le_bytes(words.last());
        assert forall|i: int| 0 <= i < words.len() implies #[trigger] encode_u16s(words).subrange(
            2 * i,
            2 * i + 2,
        ) == spec_u16_to_le_bytes(words[i]) by {
            if i < prefix.len() {
                assert(encode_u16s(words).subrange(2 * i, 2 * i + 2) =~= head.subrange(
                    2 * i,
                    2 * i + 2,
                ));
            } else {
                assert(encode_u16s(words).subrange(2 * i, 2 * i + 2) =~= tail);
            }
        }
    }
}

/// Reading back what was written gives the same 32-bit words.
pub proof fn lemma_u32_words_round_trip(words: Seq<u32>)
    ensures
        decode_u32s(encode_u32s(words)) == words,
{
    lemma_auto_spec_u32_to_from_le_bytes();
    lemma_encode_u32s_layout(words);
    let bytes = encode_u32s(words);
    assert(bytes.len() / 4 == words.len());
    assert forall|i: int| 0 <= i < words.len() implies #[trigger] decode_u32s(bytes)[i]
        == words[i] by {
        assert(bytes.subrange(4 * i, 4 * i + 4) == spec_u32_to_le_bytes(words[i]));
    }
    assert(decode_u32s(bytes) =~= words);
}

/// Reading back what was written gives the same 16-bit words.
pub proof fn lemma_u16_words_round_trip(words: Seq<u16>)
    ensures
        decode_u16s(encode_u16s(words)) == words,
{
    lemma_auto_spec_u16_to_from_le_bytes();
    lemma_encode_u16s_layout(words);
    let bytes = encode_u16s(words);
    assert(bytes.len() / 2 == words.len());
    assert forall|i: int| 0 <= i < words.len() implies #[trigger] decode_u16s(bytes)[i]
        == words[i] by {
        assert(bytes.subrange(2 * i, 2 * i + 2) == spec_u16_to_le_bytes(words[i]));
    }
    assert(decode_u16s(bytes) =~= words);
}

/// Writing out the 32-bit words read from `bytes` gives back `bytes` without
/// its trailing partial word.
pub proof fn lemma_u32_bytes_round_trip(bytes: Seq<u8>)
    ensures
        encode_u32s(decode_u32s(bytes)) == bytes.take((4 * (bytes.len() / 4)) as int),
{
    lemma_auto_spec_u32_to_from_le_bytes();
    let words = decode_u32s(bytes);
    lemma_encode_u32s_layout(words);
    let out = encode_u32s(words);
    let whole = bytes.take((4 * (bytes.len() / 4)) as int);
    assert(4 * (bytes.len() / 4) <= bytes.len()) by (nonlinear_arith);
    assert forall|j: int| 0 <= j < out.len() implies #[trigger] out[j] == whole[j] by {
        let i = j / 4;
        assert(0 <= i < words.len() && 4 * i <= j < 4 * i + 4) by (nonlinear_arith)
            requires
                0 <= j < 4 * words.len(),
                i == j / 4,
        ;
        let chunk = bytes.subrange(4 * i, 4 * i + 4);
        assert(out.subrange(4 * i, 4 * i + 4) == spec_u32_to_le_bytes(words[i]));
        assert(spec_u32_to_le_bytes(spec_u32_from_le_bytes(chunk)) == chunk);
        assert(out.subrange(4 * i, 4 * i + 4)[j - 4 * i] == out[j]);
        assert(chunk[j - 4 * i] == bytes[j]);
    }
    assert(out =~= whole);
}

/// Writing out the 16-bit words read from `bytes` gives back `bytes` without
/// a trailing odd byte.
pub proof fn lemma_u16_bytes_round_trip(bytes: Seq<u8>)
    ensures
        encode_u16s(decode_u16s(bytes)) == bytes.take((2 * (bytes.len() / 2)) as int),
{
    lemma_auto_spec_u16_to_from_le_bytes();
    let words = decode_u16s(bytes);
    lemma_encode_u16s_layout(words);
    let out = encode_u16s(words);
    let whole = bytes.take((2 * (bytes.len() / 2)) as int);
    assert forall|j: int| 0 <= j < out.len() implies #[trigger] out[j] == whole[j] by {
        let i = j / 2;
        let chunk = bytes.subrange(2 * i, 2 * i + 2);
        assert(out.subrange(2 * i, 2 * i + 2) == spec_u16_to_le_bytes(words[i]));
        assert(spec_u16_to_le_bytes(spec_u16_from_le_bytes(chunk)) == chunk);
        assert(out.subrange(2 * i, 2 * i + 2)[j - 2 * i] == out[j]);
        assert(chunk[j - 2 * i] == bytes[j]);
    }
    assert(out =~= whole);
}

} // verus!
