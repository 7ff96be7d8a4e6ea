//! Ownership: a value has one owner, and passing it to a function or
//! returning it from one moves it.

use vstd::prelude::*;
use vstd::utf8::encode_utf8;

verus! {

/// Creates a string and moves it out to the caller, who becomes its owner.
pub fn gives_ownership() -> (some_string: String)
    ensures
        some_string@ == "yours"@,
{
    String::from_str("yours")
}

/// Takes ownership of a string and gives the same string back.
pub fn takes_and_gives_back(a_string: String) -> (result: String)
    ensures
        result == a_string,
{
    a_string
}

/// Takes ownership of a string and returns it together with its length in
/// bytes, so that the caller has the string again.
pub fn calculate_length(s: String) -> (result: (String, usize))
    ensures
        result.0 == s,
        result.1 == encode_utf8(s@).len(),
{
    let length = s.as_str().as_bytes().len();
    (s, length)
}

} // verus!
