//! Text values and the lines written for them.
//!
//! A text value is an immutable view over character data. A literal lives
//! in the program image and stays valid for the whole process; a view
//! borrowed from an owned `String` buffer is valid only while that buffer
//! lives, and the borrow checker ties the two. Functions here that build
//! text locally return the owned `String` itself, never a reference into
//! it, so no dangling reference can be formed.
use vstd::prelude::*;

verus! {

/// The output line written for a text value: the characters verbatim,
/// followed by a line terminator.
pub open spec fn line_of(s: Seq<char>) -> Seq<char> {
    s.push('\n')
}

/// Returns a text value that stays valid for the rest of the process: it
/// originates from a literal in the program image, so it may be stored and
/// read arbitrarily long after this call has returned.
pub fn static_str() -> (r: &'static str)
    ensures
        r@ == "I live forever!"@,
{
    "I live forever!"
}

/// Narrows an owned buffer to a borrowed text value without copying: the
/// view over the characters is unchanged.
pub fn narrow(s: &String) -> (r: &str)
    ensures
        r@ == s@,
{
    s.as_str()
}

/// Computes the line the print utility writes for a text value, whatever
/// its provenance: the value verbatim, then a newline.
pub fn output_line(text: &str) -> (r: String)
    ensures
        r@ == line_of(text@),
{
    let mut line = String::from_str(text);
    line.append("\n");
    proof {
        reveal_strlit("\n");
        assert(line@ =~= line_of(text@));
    }
    line
}

/// Handing an owned buffer to the print utility through the zero-copy
/// narrowing yields output identical to the line computed for the buffer's
/// own contents: the narrowing is value-preserving.
pub fn output_line_for_buffer(s: &String) -> (r: String)
    ensures
        r@ == line_of(s@),
{
    output_line(narrow(s))
}

} // verus!
