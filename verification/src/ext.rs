//! Types of outside crates that the models hold, and the few of their operations that the
//! library calls.

use vstd::prelude::*;

verus! {

/// Small immutable string of the `smol_str` crate.
#[verifier::external_type_specification]
#[verifier::external_body]
pub struct ExSmolStr(smol_str::SmolStr);

/// Vector of the `thin_vec` crate, whose header lives on the heap.
#[verifier::external_type_specification]
#[verifier::external_body]
#[verifier::reject_recursive_types(T)]
pub struct ExThinVec<T>(thin_vec::ThinVec<T>);

/// ISO-8601 timestamp of the `iso8601-timestamp` crate.
#[verifier::external_type_specification]
#[verifier::external_body]
pub struct ExTimestamp(iso8601_timestamp::Timestamp);

/// The characters that a `SmolStr` holds.
pub uninterp spec fn smol_str_chars(s: smol_str::SmolStr) -> Seq<char>;

/// Calls `SmolStr::new`, which copies `text`: the new string holds the characters of `text`.
#[verifier::external_body]
pub(crate) fn smol_str_new(text: &str) -> (r: smol_str::SmolStr)
    ensures
        smol_str_chars(r) == text@,
{
    smol_str::SmolStr::new(text)
}

/// Calls `SmolStr::as_str`: the slice holds the characters of the string.
#[verifier::external_body]
pub(crate) fn smol_str_as_str(s: &smol_str::SmolStr) -> (r: &str)
    ensures
        r@ == smol_str_chars(*s),
{
    s.as_str()
}

/// Calls `SmolStr::is_empty`, which tests that the byte length is zero: true exactly when the
/// string holds no character.
#[verifier::external_body]
pub(crate) fn smol_str_is_empty(s: &smol_str::SmolStr) -> (r: bool)
    ensures
        r == (smol_str_chars(*s).len() == 0),
{
    s.is_empty()
}

/// `SmolStr::clone` gives a string with the same characters.
pub assume_specification[ <smol_str::SmolStr as Clone>::clone ](s: &smol_str::SmolStr) -> (r: smol_str::SmolStr)
    ensures
        smol_str_chars(r) == smol_str_chars(*s),
;

/// `ThinVec::clone` clones each element into a new vector; nothing is stated of its result.
pub assume_specification<T>[ <thin_vec::ThinVec<T> as Clone>::clone ](v: &thin_vec::ThinVec<T>) -> (r:
    thin_vec::ThinVec<T>) where T: Clone
;

/// `Timestamp` is `Copy`; its clone is a copy.
pub assume_specification[ <iso8601_timestamp::Timestamp as Clone>::clone ](t: &iso8601_timestamp::Timestamp) -> (r:
    iso8601_timestamp::Timestamp)
    ensures
        r == *t,
;

/// Returns the constant `Timestamp::UNIX_EPOCH`, midnight of 1970-01-01 UTC.
#[verifier::external_body]
pub(crate) fn timestamp_unix_epoch() -> (r: iso8601_timestamp::Timestamp) {
    iso8601_timestamp::Timestamp::UNIX_EPOCH
}

} // verus!
