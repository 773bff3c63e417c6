//! A short-lived record holding a borrowed name.
use vstd::prelude::*;

verus! {

/// The greeting built for a name: `My name is ` followed by the name.
pub open spec fn greeting_of(name: Seq<char>) -> Seq<char> {
    "My name is "@ + name
}

/// A record holding one borrowed text field. The record cannot outlive the
/// buffer its field borrows from: the lifetime parameter ties the record to
/// that buffer.
pub struct User<'a> {
    pub name: &'a str,
}

impl<'a> User<'a> {
    /// The text value the record's print operation writes: the name alone,
    /// unformatted.
    pub fn name(&self) -> (r: &'a str)
        ensures
            r@ == self.name@,
    {
        self.name
    }

    /// Builds the record's display form as a new owned buffer: exactly
    /// `My name is ` followed by the name.
    pub fn format(&self) -> (r: String)
        ensures
            r@ == greeting_of(self.name@),
    {
        let mut s = String::from_str("My name is ");
        s.append(self.name);
        s
    }
}

} // verus!
