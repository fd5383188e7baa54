//! What becomes of the text that is handed to a setting or a message.

use vstd::prelude::*;

verus! {

/// `<String as From<&str>>::from`: the string holds the characters of the
/// slice.
pub assume_specification<'a>[ <String as From<&'a str>>::from ](s: &str) -> (string: String)
    ensures
        string@ == s@,
;

/// `From::from` of a type for itself, by which a setting takes an owned
/// `String`: the value is returned unchanged.
pub assume_specification<Unchanged>[ <Unchanged as From<Unchanged>>::from ](value: Unchanged) -> (
    same: Unchanged)
    ensures
        same == value,
;

} // verus!
