//! The one way in which decoding fails.

use vstd::prelude::*;

verus! {

/// A codepoint that is not part of the alphabet, and where it was met.
#[derive(Debug, Clone, PartialEq, Eq, Structural)]
pub struct DecodeError {
    /// The codepoint that has no byte value.
    pub codepoint: char,
    /// Its position in the input, counted in codepoints from zero.
    pub index: usize,
}

/// The character for a single decimal digit.
pub open spec fn digit(d: nat) -> char
    recommends
        d < 10,
{
    (48 + d) as char
}

/// `n` written in decimal, without leading zeros.
pub open spec fn decimal(n: nat) -> Seq<char>
    decreases n,
{
    if n < 10 {
        seq![digit(n)]
    } else {
        decimal(n / 10).push(digit(n % 10))
    }
}

/// The text of an error: the codepoint, its position, and what is wrong
/// with it.
pub open spec fn message_spec(e: DecodeError) -> Seq<char> {
    seq![e.codepoint] + " at index "@ + decimal(e.index as nat)
        + " is not part of the alphabet"@
}

/// Appends `n` in decimal to `out`.
fn push_decimal(out: &mut String, n: usize)
    ensures
        final(out)@ == old(out)@ + decimal(n as nat),
    decreases n,
{
    let ghost before = out@;
    if n >= 10 {
        push_decimal(out, n / 10);
    }
    let ghost leading = out@;
    let d: u8 = (n % 10) as u8;
    out.push((48u8 + d) as char);
    assert(out@ == before + decimal(n as nat)) by {
        let last = digit((n % 10) as nat);
        if n >= 10 {
            let higher = decimal((n / 10) as nat);
            assert(leading == before + higher);
            assert((before + higher).push(last) == before + higher.push(last));
        } else {
            assert(before.push(last) == before + seq![last]);
        }
    }
}

impl DecodeError {
    /// The error as a line for a person to read, such as
    /// `x at index 3 is not part of the alphabet`.
    pub fn to_string(&self) -> (s: String)
        ensures
            s@ == message_spec(*self),
    {
        let mut s = String::new();
        s.push(self.codepoint);
        s.append(" at index ");
        push_decimal(&mut s, self.index);
        s.append(" is not part of the alphabet");
        assert(s@ == message_spec(*self)) by {
            assert(Seq::<char>::empty().push(self.codepoint) == seq![self.codepoint]);
        }
        s
    }
}

} // verus!
