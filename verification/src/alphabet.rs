//! The alphabet: an ordered table of 256 distinct codepoints, one per byte value.

use vstd::prelude::*;

verus! {

/// A table of symbols; byte value `i` is written as entry `i`.
pub type Alphabet = [char; 256];

/// A table is an alphabet when it has one entry per byte value and no
/// codepoint occurs in it twice.
pub open spec fn is_alphabet(table: Seq<char>) -> bool {
    &&& table.len() == 256
    &&& forall|i: int, j: int| 0 <= i < j < 256 ==> table[i] != table[j]
}

/// The byte value that the codepoint `c` stands for, if the table holds `c`.
pub open spec fn byte_of(table: Seq<char>, c: char) -> Option<u8> {
    if table.contains(c) {
        Some(table.index_of(c) as u8)
    } else {
        None
    }
}

/// In an alphabet a codepoint stands at one position only: wherever `c` is
/// found, that position is its byte value.
pub proof fn lemma_byte_of_position(table: Seq<char>, c: char, i: int)
    requires
        is_alphabet(table),
        0 <= i < 256,
        table[i] == c,
    ensures
        byte_of(table, c) == Some(i as u8),
{
    let k = table.index_of(c);
    assert(0 <= k < 256 && table[k] == c);
    if k < i {
        assert(table[k] != table[i]);
    } else if i < k {
        assert(table[i] != table[k]);
    }
}

/// Looking an entry of the alphabet up again gives back its own position,
/// for every byte value.
pub proof fn lemma_index_correct(table: Seq<char>)
    requires
        is_alphabet(table),
    ensures
        forall|i: int| 0 <= i < 256 ==> byte_of(table, #[trigger] table[i]) == Some(i as u8),
{
    assert forall|i: int| 0 <= i < 256 implies byte_of(table, #[trigger] table[i]) == Some(
        i as u8,
    ) by {
        lemma_byte_of_position(table, table[i], i);
    }
}

} // verus!
