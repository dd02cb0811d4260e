//! Ownership transfer and borrowing: values moved into and out of functions,
//! a shared borrow that measures a string, and an exclusive borrow that
//! extends one in place.

use vstd::prelude::*;

verus! {

/// Produces a fresh owned string and hands it to the caller.
pub fn gives_ownership() -> (r: String)
    ensures
        r@ == "yours"@,
{
    String::from_str("yours")
}

/// Takes ownership of a string and immediately returns it unchanged.
pub fn takes_and_gives_back(a_string: String) -> (r: String)
    ensures
        r == a_string,
{
    a_string
}

/// Measures a borrowed string without taking ownership of it.
/// The result is the string's length in bytes of its UTF-8 encoding.
pub fn calculate_length(s: &String) -> (len: usize)
    ensures
        len == vstd::utf8::encode_utf8(s@).len(),
{
    s.as_str().as_bytes().len()
}

/// Extends a string through an exclusive borrow, appending ", world".
pub fn change(some_string: &mut String)
    ensures
        final(some_string)@ == old(some_string)@ + ", world"@,
{
    some_string.append(", world");
}

} // verus!
