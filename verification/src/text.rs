//! Conversions into owned text.

use vstd::prelude::*;

verus! {

/// `text` is what `Into<String>` may turn `source` into.
pub open spec fn converts_to<Source: Into<String>>(source: Source, text: String) -> bool {
    call_ensures(<Source as Into<String>>::into, (source,), text)
}

/// `String::from(&str)` of the standard library: the owned copy holds the same
/// characters.
pub assume_specification<'a>[ <String as From<&'a str>>::from ](s: &str) -> (text: String)
    ensures
        text@ == s@,
;

/// `T::from(T)` of the standard library: converting a value into its own type
/// returns the value unchanged.
pub assume_specification<T>[ <T as From<T>>::from ](t: T) -> (same: T)
    ensures
        same == t,
;

} // verus!
