//! `Nullable`: like `Option`, with a third state for values that exist but were not provided.

use vstd::prelude::*;
use vstd::std_specs::cmp::{PartialEqSpec, PartialEqSpecImpl};
use vstd::std_specs::convert::{FromSpecImpl, IntoSpec};

verus! {

/// Similar to `Option`, `Undefined` values can be used when data may exist but is not provided.
///
/// For example, a user biography may not be provided to any random user if they haven't
/// given permission to non-friends to view their profile, but that does not imply it doesn't exist.
///
/// Similarly, not all gateway events provide all information in objects. Again, user profiles
/// are notable in that biographies are typically excluded in events to save on bandwidth.
#[derive(Debug, Clone, Copy, Hash)]
pub enum Nullable<T> {
    /// Neither present nor absent, an indeterminant value.
    Undefined,
    /// Certainly absent of value.
    Null,
    /// Certainly present of value.
    Value(T),
}

impl<T> Default for Nullable<T> {
    fn default() -> (r: Nullable<T>)
        ensures
            r is Undefined,
    {
        Nullable::Undefined
    }
}

impl<T: PartialEq> PartialEq for Nullable<T> {
    fn eq(&self, other: &Nullable<T>) -> (r: bool) {
        match (self, other) {
            (Nullable::Value(lhs), Nullable::Value(rhs)) => lhs.eq(rhs),
            (Nullable::Undefined, Nullable::Undefined) => true,
            (Nullable::Null, Nullable::Null) => true,
            _ => false,
        }
    }
}

impl<T: PartialEq> PartialEqSpecImpl for Nullable<T> {
    open spec fn obeys_eq_spec() -> bool {
        T::obeys_eq_spec()
    }

    open spec fn eq_spec(&self, other: &Nullable<T>) -> bool {
        match (self, other) {
            (Nullable::Value(lhs), Nullable::Value(rhs)) => lhs.eq_spec(rhs),
            (Nullable::Undefined, Nullable::Undefined) => true,
            (Nullable::Null, Nullable::Null) => true,
            _ => false,
        }
    }
}

impl<T> From<T> for Nullable<T> {
    fn from(value: T) -> (r: Nullable<T>)
        ensures
            r == Nullable::Value(value),
    {
        Nullable::Value(value)
    }
}

impl<T> FromSpecImpl<T> for Nullable<T> {
    open spec fn obeys_from_spec() -> bool {
        true
    }

    open spec fn from_spec(v: T) -> Nullable<T> {
        Nullable::Value(v)
    }
}

impl<T> From<Option<T>> for Nullable<T> {
    fn from(value: Option<T>) -> (r: Nullable<T>)
        ensures
            r == (match value {
                None => Nullable::<T>::Null,
                Some(v) => Nullable::Value(v),
            }),
    {
        match value {
            None => Nullable::Null,
            Some(value) => Nullable::Value(value),
        }
    }
}

impl<T> FromSpecImpl<Option<T>> for Nullable<T> {
    open spec fn obeys_from_spec() -> bool {
        true
    }

    open spec fn from_spec(v: Option<T>) -> Nullable<T> {
        match v {
            None => Nullable::Null,
            Some(v) => Nullable::Value(v),
        }
    }
}

impl<T> Nullable<T> {
    /// Returns `true` if the value is `Undefined`.
    pub fn is_undefined(&self) -> (r: bool)
        ensures
            r == (*self is Undefined),
    {
        match self {
            Nullable::Undefined => true,
            _ => false,
        }
    }

    /// Returns `true` if the value is `Null`.
    pub fn is_null(&self) -> (r: bool)
        ensures
            r == (*self is Null),
    {
        match self {
            Nullable::Null => true,
            _ => false,
        }
    }

    /// Returns `true` if a value is present.
    pub fn is_some(&self) -> (r: bool)
        ensures
            r == (*self is Value),
    {
        match self {
            Nullable::Value(_) => true,
            _ => false,
        }
    }

    /// Maps an inner present value to a different value,
    /// carrying over `Null` and `Undefined` unchanged.
    pub fn map<F, U>(self, f: F) -> (r: Nullable<U>) where F: FnOnce(T) -> U
        requires
            self matches Nullable::Value(v) ==> f.requires((v,)),
        ensures
            map_outcome(self, f, r),
    {
        match self {
            Nullable::Value(value) => Nullable::Value(f(value)),
            Nullable::Null => Nullable::Null,
            Nullable::Undefined => Nullable::Undefined,
        }
    }

    /// Converts `Nullable<T>` to `Nullable<&T>`.
    pub fn as_ref(&self) -> (r: Nullable<&T>)
        ensures
            match *self {
                Nullable::Value(v) => r matches Nullable::Value(u) && *u == v,
                Nullable::Null => r is Null,
                Nullable::Undefined => r is Undefined,
            },
    {
        match self {
            Nullable::Value(value) => Nullable::Value(value),
            Nullable::Null => Nullable::Null,
            Nullable::Undefined => Nullable::Undefined,
        }
    }

    /// Maps an inner present value to a different value, using `Into`.
    ///
    /// Equivalent to `.map(Into::into)`.
    pub fn map_into<U>(self) -> (r: Nullable<U>) where T: Into<U>
        ensures
            map_into_outcome(self, r),
    {
        match self {
            Nullable::Value(value) => Nullable::Value(value.into()),
            Nullable::Null => Nullable::Null,
            Nullable::Undefined => Nullable::Undefined,
        }
    }
}

/// Whether `r` is what mapping `n` with `f` may give: a present value becomes one that `f`
/// may return for it, and `Null` and `Undefined` are carried over.
pub open spec fn map_outcome<T, U, F: FnOnce(T) -> U>(n: Nullable<T>, f: F, r: Nullable<U>) -> bool {
    match n {
        Nullable::Value(v) => r matches Nullable::Value(u) && f.ensures((v,), u),
        Nullable::Null => r is Null,
        Nullable::Undefined => r is Undefined,
    }
}

/// Whether `r` is what converting the value of `n` with `Into` may give: a present value
/// becomes a present value, which is its conversion where `Into` is specified, and `Null` and
/// `Undefined` are carried over.
pub open spec fn map_into_outcome<T: Into<U>, U>(n: Nullable<T>, r: Nullable<U>) -> bool {
    match n {
        Nullable::Value(v) => r matches Nullable::Value(u) && (T::obeys_into_spec() ==> u == v.into_spec()),
        Nullable::Null => r is Null,
        Nullable::Undefined => r is Undefined,
    }
}

/// Converting with `map_into` gives what `map` gives with a function that converts as `Into`
/// does.
pub proof fn law_map_into_is_map<T: Into<U>, U, F: FnOnce(T) -> U>(
    n: Nullable<T>,
    f: F,
    by_map: Nullable<U>,
    by_into: Nullable<U>,
)
    requires
        T::obeys_into_spec(),
        forall|v: T, u: U| #[trigger] f.ensures((v,), u) ==> u == v.into_spec(),
        map_outcome(n, f, by_map),
        map_into_outcome(n, by_into),
    ensures
        by_map == by_into,
{
}

/// Tag byte that stands for the variant of an archived [`Nullable`]: 0 for `Undefined`, 1 for
/// `Null`, 2 for a value.
#[derive(Debug, Clone, Copy, PartialEq, Eq, Structural)]
pub enum ArchivedNullableTag {
    Undefined,
    Null,
    Value,
}

/// The byte of a tag.
pub open spec fn nullable_tag_byte(t: ArchivedNullableTag) -> u8 {
    match t {
        ArchivedNullableTag::Undefined => 0,
        ArchivedNullableTag::Null => 1,
        ArchivedNullableTag::Value => 2,
    }
}

/// The tag that a byte stands for; `None` for a byte that names no variant.
pub open spec fn nullable_tag_of_byte(b: u8) -> Option<ArchivedNullableTag> {
    if b == 0 {
        Some(ArchivedNullableTag::Undefined)
    } else if b == 1 {
        Some(ArchivedNullableTag::Null)
    } else if b == 2 {
        Some(ArchivedNullableTag::Value)
    } else {
        None
    }
}

impl ArchivedNullableTag {
    /// The tag of the variant of a nullable value.
    pub fn of<T>(n: &Nullable<T>) -> (r: ArchivedNullableTag)
        ensures
            r == (match *n {
                Nullable::Undefined => ArchivedNullableTag::Undefined,
                Nullable::Null => ArchivedNullableTag::Null,
                Nullable::Value(_) => ArchivedNullableTag::Value,
            }),
    {
        match n {
            Nullable::Undefined => ArchivedNullableTag::Undefined,
            Nullable::Null => ArchivedNullableTag::Null,
            Nullable::Value(_) => ArchivedNullableTag::Value,
        }
    }

    /// The byte that stands for the tag.
    pub fn byte(self) -> (r: u8)
        ensures
            r == nullable_tag_byte(self),
    {
        match self {
            ArchivedNullableTag::Undefined => 0,
            ArchivedNullableTag::Null => 1,
            ArchivedNullableTag::Value => 2,
        }
    }

    /// The tag that a byte stands for; `None`, an invalid discriminant, for a byte above 2.
    pub fn from_byte(b: u8) -> (r: Option<ArchivedNullableTag>)
        ensures
            r == nullable_tag_of_byte(b),
    {
        match b {
            0 => Some(ArchivedNullableTag::Undefined),
            1 => Some(ArchivedNullableTag::Null),
            2 => Some(ArchivedNullableTag::Value),
            _ => None,
        }
    }
}

/// Every tag is read back from its byte, and the bytes that read back as a tag are 0, 1 and 2.
pub proof fn law_nullable_tag_roundtrip(t: ArchivedNullableTag, b: u8)
    ensures
        nullable_tag_of_byte(nullable_tag_byte(t)) == Some(t),
        nullable_tag_of_byte(b) is Some <==> b <= 2,
        nullable_tag_of_byte(b) matches Some(u) ==> nullable_tag_byte(u) == b,
{
}

} // verus!
