//! References: borrowing a value without taking ownership of it.
//!
//! At any time a value has either one mutable reference or any number of
//! immutable ones, and a reference never outlives what it refers to.

use vstd::prelude::*;
use vstd::utf8::encode_utf8;

verus! {

/// Returns the length in bytes of a borrowed string. The caller keeps the
/// string.
pub fn calculate_length(s: &String) -> (length: usize)
    ensures
        length == encode_utf8(s@).len(),
{
    s.as_str().as_bytes().len()
}

/// Appends `", world"` to the string behind a mutable reference.
pub fn change(some_string: &mut String)
    ensures
        final(some_string)@ == old(some_string)@ + ", world"@,
{
    some_string.append(", world");
}

/// Borrows one string mutably twice, one borrow after the other: the first
/// borrow has ended where the second begins. The string is left as it was
/// made.
pub fn use_two_mutable_references_with_braces() {
    let mut s = String::from_str("hello");

    {
        let _r1 = &mut s;
    }

    let _r2 = &mut s;
}

/// Returns a new string by value. A reference to it could not be returned:
/// the string would be gone before the reference.
pub fn no_dangle() -> (s: String)
    ensures
        s@ == "hello"@,
{
    String::from_str("hello")
}

} // verus!
