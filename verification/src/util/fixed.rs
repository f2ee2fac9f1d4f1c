//! Fixed-size strings: UTF-8 strings of exactly `N` bytes.

use vstd::prelude::*;
use vstd::string::StringSliceAdditionalSpecFns;
use vstd::utf8::{encode_utf8, is_ascii_chars, valid_utf8};

verus! {

broadcast use vstd::utf8::group_utf8_lib;

/// Calls `core::str::from_utf8`, which documents that it returns `Ok` exactly when the bytes
/// are valid UTF-8, and then a string slice over those bytes.
#[verifier::external_body]
pub(crate) fn str_from_utf8(bytes: &[u8]) -> (r: Result<&str, core::str::Utf8Error>)
    ensures
        r is Ok <==> valid_utf8(bytes@),
        r matches Ok(s) ==> s.spec_bytes() == bytes@,
{
    core::str::from_utf8(bytes)
}

#[verifier::external_type_specification]
#[verifier::external_body]
pub struct ExUtf8Error(core::str::Utf8Error);

/// `Utf8Error` is `Copy`; its clone is a copy.
pub assume_specification[ <core::str::Utf8Error as Clone>::clone ](e: &core::str::Utf8Error) -> (r:
    core::str::Utf8Error)
    ensures
        r == *e,
;

/// Whether every byte is an ASCII character.
pub open spec fn is_ascii_bytes(bytes: Seq<u8>) -> bool {
    forall|i: int| 0 <= i < bytes.len() ==> bytes[i] < 128
}

/// ASCII bytes are valid UTF-8.
pub proof fn lemma_ascii_bytes_valid_utf8(bytes: Seq<u8>)
    requires
        is_ascii_bytes(bytes),
    ensures
        valid_utf8(bytes),
{
    let chars = Seq::new(bytes.len(), |i: int| bytes[i] as char);
    assert(is_ascii_chars(chars));
    assert(encode_utf8(chars) =~= bytes);
}

/// Fixed-size String that can *only* be a given length, no more or less, exactly N bytes
#[derive(Clone, Copy, PartialEq, Eq, Hash, Debug)]
pub struct FixedStr<const N: usize> {
    data: [u8; N],
}

impl<const N: usize> View for FixedStr<N> {
    type V = Seq<u8>;

    /// The bytes of the string.
    closed spec fn view(&self) -> Seq<u8> {
        self.data@
    }
}

/// A fixed string holds exactly `N` bytes.
pub proof fn lemma_fixed_str_len<const N: usize>(s: FixedStr<N>)
    ensures
        s@.len() == N,
{
}

impl<const N: usize> FixedStr<N> {
    /// The length of the string in bytes.
    #[allow(non_snake_case)]
    pub fn LEN() -> (r: usize)
        ensures
            r == N,
    {
        N
    }

    #[verifier::type_invariant]
    spec fn utf8(self) -> bool {
        valid_utf8(self.data@)
    }

    /// Every fixed string holds exactly `N` bytes of valid UTF-8.
    pub fn well_formed(&self) -> (r: bool)
        ensures
            r,
            self@.len() == N,
            valid_utf8(self@),
    {
        proof {
            use_type_invariant(self);
        }
        true
    }

    /// Construct a new [FixedStr] from a given ASCII character repeated for the entire length
    pub fn repeat_ascii(c: char) -> (r: FixedStr<N>)
        requires
            (c as u32) < 128,
        ensures
            r@ == Seq::new(N as nat, |i: int| c as u8),
    {
        let b = c as u8;
        let data = [b; N];
        proof {
            assert(data@ =~= Seq::new(N as nat, |i: int| c as u8));
            lemma_ascii_bytes_valid_utf8(data@);
        }
        FixedStr { data }
    }

    /// Create a string of `\0` values.
    pub fn zeroized() -> (r: FixedStr<N>)
        ensures
            r@ == Seq::new(N as nat, |i: int| 0u8),
    {
        let data = [0u8; N];
        proof {
            assert(data@ =~= Seq::new(N as nat, |i: int| 0u8));
            lemma_ascii_bytes_valid_utf8(data@);
        }
        FixedStr { data }
    }

    /// Builds a fixed string from bytes that are valid UTF-8 and exactly `N` long.
    pub fn from_utf8_bytes(bytes: &[u8]) -> (r: FixedStr<N>)
        requires
            bytes@.len() == N,
            valid_utf8(bytes@),
        ensures
            r@ == bytes@,
    {
        let mut data = [0u8; N];
        let mut i: usize = 0;
        while i < N
            invariant
                i <= N,
                bytes@.len() == N,
                data@.len() == N,
                forall|j: int| 0 <= j < i ==> data@[j] == bytes@[j],
            decreases N - i,
        {
            data[i] = bytes[i];
            i += 1;
        }
        proof {
            assert(data@ =~= bytes@);
        }
        FixedStr { data }
    }

    /// Construct a new [FixedStr] from a `&str`, whose length must be exactly `N` bytes.
    pub fn new(s: &str) -> (r: FixedStr<N>)
        requires
            s.spec_bytes().len() == N,
        ensures
            r@ == s.spec_bytes(),
    {
        let bytes = s.as_bytes();
        FixedStr::from_utf8_bytes(bytes)
    }

    /// `Ok` exactly when `s` is `N` bytes long.
    pub fn try_from(s: &str) -> (r: Result<FixedStr<N>, ()>)
        ensures
            r is Ok <==> s.spec_bytes().len() == N,
            r matches Ok(f) ==> f@ == s.spec_bytes(),
    {
        if s.as_bytes().len() != N {
            return Err(());
        }
        Ok(Self::new(s))
    }

    /// The string, whose bytes are those of the fixed string.
    pub fn as_str(&self) -> (r: &str)
        ensures
            r.spec_bytes() == self@,
            self@.len() == N,
    {
        proof {
            use_type_invariant(self);
        }
        match str_from_utf8(self.data.as_slice()) {
            Ok(s) => s,
            Err(_) => "",
        }
    }

    /// The bytes of the string.
    pub fn as_bytes(&self) -> (r: &[u8])
        ensures
            r@ == self@,
            self@.len() == N,
    {
        self.data.as_slice()
    }
}

impl<const N: usize> core::ops::Deref for FixedStr<N> {
    type Target = str;

    fn deref(&self) -> (r: &str)
        ensures
            r.spec_bytes() == self@,
    {
        self.as_str()
    }
}



} // verus!
