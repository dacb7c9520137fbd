//! Contracts of the conversions of std that the setters of the crate go through.
use vstd::prelude::*;

verus! {

/// `impl<T> From<T> for T`: std documents it as the identity ("returns the argument unchanged").
pub assume_specification<Val>[ <Val as From<Val>>::from ](val: Val) -> (res: Val)
    ensures
        res == val,
;

/// `impl<T> From<T> for Option<T>`: std documents that it moves the value into a new `Some`.
pub assume_specification<Val>[ <Option<Val> as From<Val>>::from ](val: Val) -> (res: Option<
    Val,
>)
    ensures
        res == Some(val),
;

/// `impl From<&str> for String`: std documents that it makes a `String` holding the text of the
/// slice.
pub assume_specification<'a>[ <String as From<&'a str>>::from ](s: &str) -> (res: String)
    ensures
        res@ == s@,
;

/// Calls `AsRef::as_ref` on `text`, through which stage sources and uniform names are read: it
/// borrows a `&str` out of the value. What the borrowed text is depends on the implementation of
/// the trait for `Txt`, so nothing is stated of it.
#[verifier::external_body]
pub(crate) fn borrow_str<Txt: ?Sized + AsRef<str>>(text: &Txt) -> &str {
    text.as_ref()
}

} // verus!
