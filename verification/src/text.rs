//! Strings as this library needs them: appending a codepoint, and how much
//! storage a codepoint takes.

use vstd::prelude::*;
use vstd::utf8::{encode_scalar, encode_utf8};

verus! {

/// `String::push` of std: the string afterwards is the string before with
/// `c` as one more codepoint at its end.
pub assume_specification[ String::push ](s: &mut String, c: char)
    ensures
        final(s)@ == old(s)@.push(c),
;

/// The number of bytes that `c` takes in the storage of a string.
pub open spec fn storage_width(c: char) -> nat {
    encode_scalar(c as u32).len()
}

/// A codepoint takes from one to four bytes.
pub proof fn lemma_storage_width_bounds(c: char)
    ensures
        1 <= storage_width(c) <= 4,
{
}

/// The first codepoint of a text takes the first bytes of its storage, and
/// the rest of the text the rest.
pub proof fn lemma_storage_of_first(text: Seq<char>)
    requires
        text.len() > 0,
    ensures
        encode_utf8(text).len() == storage_width(text[0]) + encode_utf8(text.drop_first()).len(),
{
}

} // verus!
