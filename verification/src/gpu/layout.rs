//! Memory layout shared with the kernel: 32-bit words, least significant
//! byte first, packed without gaps.

use vstd::prelude::*;

verus! {

/// The four bytes of a word, least significant first.
pub open spec fn word_bytes(w: u32) -> Seq<u8> {
    seq![
        (w % 256) as u8,
        (w / 256 % 256) as u8,
        (w / 65536 % 256) as u8,
        (w / 16777216) as u8,
    ]
}

/// The word that four bytes spell, least significant first.
pub open spec fn word_of(b: Seq<u8>) -> u32
    recommends
        b.len() == 4,
{
    (b[0] as int + 256 * (b[1] as int) + 65536 * (b[2] as int) + 16777216 * (b[3] as int)) as u32
}

/// The buffer that holds `words` one after another.
pub open spec fn encoded(words: Seq<u32>) -> Seq<u8> {
    Seq::new(4 * words.len(), |i: int| word_bytes(words[i / 4])[i % 4])
}

/// The words that a buffer holds; a buffer that breaks off inside a word
/// holds none of that word.
pub open spec fn decoded(bytes: Seq<u8>) -> Seq<u32> {
    Seq::new((bytes.len() / 4) as nat, |k: int| word_of(bytes.subrange(4 * k, 4 * k + 4)))
}

/// Reading back the bytes of a word gives the word.
pub proof fn lemma_word_round_trip(w: u32)
    ensures
        word_bytes(w).len() == 4,
        word_of(word_bytes(w)) == w,
{
    let v = w as int;
    assert(v == v % 256 + 256 * (v / 256));
    assert(v / 256 == v / 256 % 256 + 256 * (v / 65536));
    assert(v / 65536 == v / 65536 % 256 + 256 * (v / 16777216));
    assert(0 <= v / 16777216 < 256);
}

/// Four bytes are the bytes of the word they spell.
pub proof fn lemma_bytes_round_trip(b: Seq<u8>)
    requires
        b.len() == 4,
    ensures
        word_bytes(word_of(b)) == b,
{
    let b0 = b[0] as int;
    let b1 = b[1] as int;
    let b2 = b[2] as int;
    let b3 = b[3] as int;
    let w = b0 + 256 * b1 + 65536 * b2 + 16777216 * b3;
    assert(0 <= w <= 0xFFFF_FFFF);
    assert(word_of(b) == w);
    assert(w % 256 == b0);
    assert(w / 256 == b1 + 256 * b2 + 65536 * b3);
    assert(w / 256 % 256 == b1);
    assert(w / 65536 == b2 + 256 * b3);
    assert(w / 65536 % 256 == b2);
    assert(w / 16777216 == b3);
    assert(word_bytes(word_of(b)) =~= b);
}

/// Word `k` of a buffer occupies bytes `4k` to `4k + 3`.
pub proof fn lemma_word_at(words: Seq<u32>, k: int)
    requires
        0 <= k < words.len(),
    ensures
        encoded(words).len() == 4 * words.len(),
        encoded(words).subrange(4 * k, 4 * k + 4) == word_bytes(words[k]),
{
    assert(encoded(words).subrange(4 * k, 4 * k + 4) =~= word_bytes(words[k]));
}

/// Appending a word appends its four bytes.
pub proof fn lemma_encoded_push(words: Seq<u32>, w: u32)
    ensures
        encoded(words.push(w)) == encoded(words) + word_bytes(w),
{
    assert(encoded(words.push(w)) =~= encoded(words) + word_bytes(w));
}

/// A run of words inside a buffer occupies the bytes from four times its
/// first index to four times its end.
pub proof fn lemma_words_at(words: Seq<u32>, from: int, to: int)
    requires
        0 <= from <= to <= words.len(),
    ensures
        encoded(words).subrange(4 * from, 4 * to) == encoded(words.subrange(from, to)),
{
    assert(encoded(words).subrange(4 * from, 4 * to) =~= encoded(words.subrange(from, to)));
}

/// Decoding an encoded buffer gives the words back.
pub proof fn lemma_decode_encoded(words: Seq<u32>)
    ensures
        decoded(encoded(words)) == words,
{
    assert forall|k: int| 0 <= k < words.len() implies #[trigger] decoded(encoded(words))[k]
        == words[k] by {
        lemma_word_at(words, k);
        lemma_word_round_trip(words[k]);
    }
    assert(decoded(encoded(words)) =~= words);
}

/// Appends the bytes of `w` to `out`.
pub fn push_word(out: &mut Vec<u8>, w: u32)
    ensures
        final(out)@ == old(out)@ + word_bytes(w),
{
    out.push((w % 256) as u8);
    out.push((w / 256 % 256) as u8);
    out.push((w / 65536 % 256) as u8);
    out.push((w / 16777216) as u8);
    assert(out@ =~= old(out)@ + word_bytes(w));
}

/// Lays `words` out as the kernel reads them.
pub fn encode_words(words: &Vec<u32>) -> (bytes: Vec<u8>)
    ensures
        bytes@ == encoded(words@),
{
    let mut bytes: Vec<u8> = Vec::new();
    let mut i: usize = 0;
    assert(bytes@ =~= encoded(words@.take(0)));
    while i < words.len()
        invariant
            0 <= i <= words.len(),
            bytes@ == encoded(words@.take(i as int)),
        decreases words.len() - i,
    {
        proof {
            lemma_encoded_push(words@.take(i as int), words[i as int]);
            assert(words@.take(i as int).push(words[i as int]) =~= words@.take(i as int + 1));
        }
        push_word(&mut bytes, words[i]);
        i += 1;
    }
    assert(words@.take(i as int) =~= words@);
    bytes
}

/// Reads a buffer back into words.
pub fn decode_words(bytes: &Vec<u8>) -> (words: Vec<u32>)
    ensures
        words@ == decoded(bytes@),
{
    let n: usize = bytes.len() / 4;
    let mut words: Vec<u32> = Vec::new();
    let mut k: usize = 0;
    while k < n
        invariant
            n == bytes.len() / 4,
            0 <= k <= n,
            words@ == decoded(bytes@).take(k as int),
        decreases n - k,
    {
        let w = read_word(bytes, k);
        match w {
            Some(word) => {
                words.push(word);
            },
            None => {},
        }
        assert(words@ =~= decoded(bytes@).take(k as int + 1));
        k += 1;
    }
    assert(decoded(bytes@).take(n as int) =~= decoded(bytes@));
    words
}

/// Reads word `k` of a buffer.
pub fn read_word(bytes: &Vec<u8>, k: usize) -> (w: Option<u32>)
    ensures
        w == if k < bytes.len() / 4 {
            Some(decoded(bytes@)[k as int])
        } else {
            None
        },
{
    if k < bytes.len() / 4 {
        let at: usize = 4 * k;
        let b0: u32 = bytes[at] as u32;
        let b1: u32 = bytes[at + 1] as u32;
        let b2: u32 = bytes[at + 2] as u32;
        let b3: u32 = bytes[at + 3] as u32;
        Some(b0 + 256 * b1 + 65536 * b2 + 16777216 * b3)
    } else {
        None
    }
}

} // verus!
