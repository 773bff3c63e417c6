//! Small examples of reference lifetimes: a static-lifetime text value,
//! borrowed views of owned buffers with a zero-copy narrowing, a print
//! utility's output computed as an owned line, and a record whose lifetime
//! is tied to the buffer its name borrows from.
use vstd::prelude::*;

pub mod text;
pub mod user;

verus! {

use crate::user::{greeting_of, User};

/// The four lines the program writes, in order: a literal handed to the
/// print utility, the record's name, the record's greeting, and a closing
/// literal.
pub fn program_lines() -> (r: Vec<String>)
    ensures
        r@.len() == 4,
        r@[0]@ == "I am a string"@,
        r@[1]@ == "John"@,
        r@[2]@ == "My name is John"@,
        r@[3]@ == "Lifetimes"@,
{
    let user = User { name: "John" };
    let mut lines: Vec<String> = Vec::new();
    lines.push(String::from_str("I am a string"));
    lines.push(String::from_str(user.name()));
    lines.push(user.format());
    lines.push(String::from_str("Lifetimes"));
    proof {
        reveal_strlit("My name is ");
        reveal_strlit("John");
        reveal_strlit("My name is John");
        assert(greeting_of("John"@) =~= "My name is John"@);
    }
    lines
}

} // verus!
