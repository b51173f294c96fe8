//! Encoding and decoding over any alphabet.

use crate::alphabet::{byte_of, is_alphabet, lemma_byte_of_position, Alphabet};
use crate::error::DecodeError;
use crate::text::{lemma_storage_of_first, lemma_storage_width_bounds, storage_width};
use vstd::prelude::*;
use vstd::std_specs::iter::IteratorSpec;
use vstd::utf8::encode_utf8;

verus! {

/// The text that stands for `bytes`: entry `b` of the table for each byte `b`,
/// in order.
pub open spec fn encode_spec(table: Seq<char>, bytes: Seq<u8>) -> Seq<char> {
    bytes.map_values(|b: u8| table[b as int])
}

/// The bytes of storage that the text for `bytes` takes: the width of each
/// byte's symbol, summed.
pub open spec fn encoded_storage(table: Seq<char>, bytes: Seq<u8>) -> nat
    decreases bytes.len(),
{
    if bytes.len() == 0 {
        0
    } else {
        storage_width(table[bytes[0] as int]) + encoded_storage(table, bytes.drop_first())
    }
}

/// Every codepoint of `text` is part of the table.
pub open spec fn accepts(table: Seq<char>, text: Seq<char>) -> bool {
    forall|i: int| 0 <= i < text.len() ==> table.contains(#[trigger] text[i])
}

/// Position `k` holds the first codepoint of `text` that is not part of the
/// table.
pub open spec fn first_foreign_at(table: Seq<char>, text: Seq<char>, k: int) -> bool {
    &&& 0 <= k < text.len()
    &&& !table.contains(text[k])
    &&& forall|j: int| 0 <= j < k ==> table.contains(#[trigger] text[j])
}

/// What decoding `text` gives: the byte value of every codepoint, or the
/// first codepoint that has none, with its position.
pub open spec fn decode_spec(table: Seq<char>, text: Seq<char>) -> Result<Seq<u8>, DecodeError> {
    if accepts(table, text) {
        Ok(text.map_values(|c: char| byte_of(table, c).unwrap()))
    } else {
        let k = choose|k: int| first_foreign_at(table, text, k);
        Err(DecodeError { codepoint: text[k], index: k as usize })
    }
}

/// The outcome of a decoding, with the bytes taken as a sequence.
pub open spec fn outcome(r: Result<Vec<u8>, DecodeError>) -> Result<Seq<u8>, DecodeError> {
    match r {
        Ok(bytes) => Ok(bytes@),
        Err(e) => Err(e),
    }
}

/// At most one position is the first foreign one.
pub proof fn lemma_first_foreign_unique(table: Seq<char>, text: Seq<char>, k: int, m: int)
    requires
        first_foreign_at(table, text, k),
        first_foreign_at(table, text, m),
    ensures
        k == m,
{
    if k < m {
        assert(table.contains(text[k]));
    } else if m < k {
        assert(table.contains(text[m]));
    }
}

/// Where every codepoint has a byte value, decoding gives those values.
pub proof fn lemma_decode_accepts(table: Seq<char>, text: Seq<char>, bytes: Seq<u8>)
    requires
        bytes.len() == text.len(),
        forall|j: int|
            0 <= j < text.len() ==> byte_of(table, #[trigger] text[j]) == Some(bytes[j]),
    ensures
        decode_spec(table, text) == Ok::<_, DecodeError>(bytes),
{
    assert forall|i: int| 0 <= i < text.len() implies table.contains(#[trigger] text[i]) by {
        assert(byte_of(table, text[i]) is Some);
    }
    assert(text.map_values(|c: char| byte_of(table, c).unwrap()) =~= bytes);
}

/// Where position `k` holds the first foreign codepoint, decoding reports
/// that codepoint and `k`.
pub proof fn lemma_decode_rejects(table: Seq<char>, text: Seq<char>, k: int)
    requires
        first_foreign_at(table, text, k),
        k <= usize::MAX,
    ensures
        decode_spec(table, text) == Err::<Seq<u8>, _>(
            DecodeError { codepoint: text[k], index: k as usize },
        ),
{
    let m = choose|m: int| first_foreign_at(table, text, m);
    lemma_first_foreign_unique(table, text, k, m);
}

/// Round trip: decoding what was encoded gives the bytes back, whatever the
/// bytes and however many, none included.
pub proof fn lemma_round_trip(table: Seq<char>, bytes: Seq<u8>)
    requires
        is_alphabet(table),
    ensures
        decode_spec(table, encode_spec(table, bytes)) == Ok::<_, DecodeError>(bytes),
{
    let text = encode_spec(table, bytes);
    assert forall|j: int| 0 <= j < text.len() implies byte_of(table, #[trigger] text[j]) == Some(
        bytes[j],
    ) by {
        lemma_byte_of_position(table, text[j], bytes[j] as int);
    }
    lemma_decode_accepts(table, text, bytes);
}

/// Round trip of one byte: each of the 256 byte values comes back from its
/// own symbol.
pub proof fn lemma_round_trip_byte(table: Seq<char>, b: u8)
    requires
        is_alphabet(table),
    ensures
        encode_spec(table, seq![b]) == seq![table[b as int]],
        decode_spec(table, encode_spec(table, seq![b])) == Ok::<_, DecodeError>(seq![b]),
{
    lemma_round_trip(table, seq![b]);
}

/// Failure locality: where exactly one codepoint of `text` is foreign to the
/// table, decoding reports that codepoint and its position `k`. What stands
/// before position `k` has no part in the position reported.
pub proof fn lemma_failure_locality(table: Seq<char>, text: Seq<char>, k: int)
    requires
        0 <= k < text.len(),
        text.len() <= usize::MAX,
        !table.contains(text[k]),
        forall|j: int| 0 <= j < text.len() && j != k ==> table.contains(#[trigger] text[j]),
    ensures
        decode_spec(table, text) == Err::<Seq<u8>, _>(
            DecodeError { codepoint: text[k], index: k as usize },
        ),
{
    lemma_decode_rejects(table, text, k);
}

/// Nothing in, nothing out: no bytes encode to the empty text, and the empty
/// text decodes to no bytes.
pub proof fn lemma_empty(table: Seq<char>)
    ensures
        encode_spec(table, Seq::empty()) == Seq::<char>::empty(),
        decode_spec(table, Seq::empty()) == Ok::<_, DecodeError>(Seq::<u8>::empty()),
{
    lemma_decode_accepts(table, Seq::empty(), Seq::empty());
}

/// The text for `bytes` has one codepoint per byte, and its length in
/// storage is the sum of the widths of the symbols chosen: at least one and
/// at most four bytes for each.
pub proof fn lemma_encoded_storage(table: Seq<char>, bytes: Seq<u8>)
    ensures
        encode_spec(table, bytes).len() == bytes.len(),
        encode_utf8(encode_spec(table, bytes)).len() == encoded_storage(table, bytes),
        bytes.len() <= encoded_storage(table, bytes) <= 4 * bytes.len(),
    decreases bytes.len(),
{
    if bytes.len() > 0 {
        let text = encode_spec(table, bytes);
        assert(text.drop_first() == encode_spec(table, bytes.drop_first()));
        lemma_storage_of_first(text);
        lemma_storage_width_bounds(table[bytes[0] as int]);
        lemma_encoded_storage(table, bytes.drop_first());
    }
}

/// Decodes `input` with `resolve` as the lookup of single codepoints in
/// `table`.
pub(crate) fn decode_by<F: Fn(char) -> Option<u8>>(
    input: &str,
    resolve: F,
    Ghost(table): Ghost<Seq<char>>,
) -> (r: Result<Vec<u8>, DecodeError>)
    requires
        forall|c: char| call_requires(resolve, (c,)),
        forall|c: char, b: Option<u8>| call_ensures(resolve, (c,), b) ==> b == byte_of(table, c),
    ensures
        outcome(r) == decode_spec(table, input@),
{
    let n = input.unicode_len();
    let mut output: Vec<u8> = Vec::with_capacity(n);
    let mut chars = input.chars();
    let mut i: usize = 0;
    loop
        invariant
            n == input@.len(),
            i <= n,
            chars.remaining() == input@.skip(i as int),
            output@.len() == i,
            forall|c: char| call_requires(resolve, (c,)),
            forall|c: char, b: Option<u8>|
                call_ensures(resolve, (c,), b) ==> b == byte_of(table, c),
            forall|j: int|
                0 <= j < i ==> byte_of(table, #[trigger] input@[j]) == Some(output@[j]),
        decreases n - i,
    {
        broadcast use vstd::string::next_postcondition;

        match chars.next() {
            Some(c) => {
                assert(c == input@[i as int]);
                assert(input@.skip(i as int).drop_first() == input@.skip(i + 1));
                match resolve(c) {
                    Some(b) => {
                        output.push(b);
                    },
                    None => {
                        proof {
                            lemma_decode_rejects(table, input@, i as int);
                        }
                        return Err(DecodeError { codepoint: c, index: i });
                    },
                }
                i += 1;
            },
            None => {
                proof {
                    lemma_decode_accepts(table, input@, output@);
                }
                return Ok(output);
            },
        }
    }
}

/// A 256-symbol alphabet and the two operations built on it.
pub trait Base {
    /// The symbols, entry `i` for byte value `i`.
    const ALPHABET: Alphabet;

    /// No codepoint occurs twice in `ALPHABET`.
    proof fn alphabet_is_valid()
        ensures
            is_alphabet(Self::ALPHABET@),
    ;

    /// The byte value of a codepoint of the alphabet.
    fn get_index(c: char) -> (i: usize)
        requires
            Self::ALPHABET@.contains(c),
        ensures
            i < 256,
            byte_of(Self::ALPHABET@, c) == Some(i as u8),
    ;

    /// The byte value of `c`, or `None` where `c` is not part of the
    /// alphabet. The provided body scans the table.
    fn resolve(c: char) -> (r: Option<u8>)
        ensures
            r == byte_of(Self::ALPHABET@, c),
    {
        let table = Self::ALPHABET;
        let mut i: usize = 0;
        while i < 256
            invariant
                i <= 256,
                table@ == Self::ALPHABET@,
                forall|j: int| 0 <= j < i ==> table@[j] != c,
            decreases 256 - i,
        {
            if table[i] == c {
                proof {
                    Self::alphabet_is_valid();
                    lemma_byte_of_position(table@, c, i as int);
                }
                return Some(i as u8);
            }
            i += 1;
        }
        None
    }

    /// Reads `input` codepoint by codepoint and gives the byte value of each,
    /// or stops at the first codepoint that is not part of the alphabet.
    fn decode(input: &str) -> (r: Result<Vec<u8>, DecodeError>)
        ensures
            outcome(r) == decode_spec(Self::ALPHABET@, input@),
    {
        let resolve = |c: char| -> (b: Option<u8>)
            ensures
                b == byte_of(Self::ALPHABET@, c),
            { Self::resolve(c) };
        decode_by(input, resolve, Ghost(Self::ALPHABET@))
    }

    /// Writes the symbol of each byte of `input`, in order and with nothing
    /// between them. The string grows by each symbol's own width in storage,
    /// which differs from symbol to symbol.
    fn encode(input: &Vec<u8>) -> (r: String)
        ensures
            r@ == encode_spec(Self::ALPHABET@, input@),
            encode_utf8(r@).len() == encoded_storage(Self::ALPHABET@, input@),
    {
        proof {
            lemma_encoded_storage(Self::ALPHABET@, input@);
        }
        let table = Self::ALPHABET;
        let mut output = String::new();
        let mut i: usize = 0;
        while i < input.len()
            invariant
                i <= input.len(),
                table@ == Self::ALPHABET@,
                output@ == encode_spec(Self::ALPHABET@, input@.take(i as int)),
            decreases input.len() - i,
        {
            let c = table[input[i] as usize];
            output.push(c);
            assert(input@.take(i + 1) == input@.take(i as int).push(input@[i as int]));
            i += 1;
        }
        assert(input@.take(i as int) == input@);
        output
    }
}

} // verus!
