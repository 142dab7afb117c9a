//! Contracts for the functions of std that the library calls and that come
//! without one. They are believed, not proved.

use vstd::prelude::*;

verus! {

/// `String::push` appends the character to the end of the string and leaves
/// what came before it unchanged.
pub assume_specification[ std::string::String::push ](s: &mut std::string::String, c: char)
    ensures
        final(s)@ == old(s)@.push(c),
;

/// The conversion of a value into its own type, `From<T> for T`, returns the
/// argument unchanged.
pub assume_specification<Same>[ <Same as core::convert::From<Same>>::from ](value: Same) -> (r: Same)
    ensures
        r == value,
;

/// `String::from` copies the characters of a string slice into a new
/// string.
pub assume_specification<'a, 'b>[ <std::string::String as core::convert::From<&'a str>>::from ](
    s: &'b str,
) -> (r: std::string::String)
    ensures
        r@ == s@,
;

} // verus!
