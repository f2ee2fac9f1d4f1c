//! String type built around `ThinVec`, so it only uses 8 bytes of stack space.

use vstd::prelude::*;
use vstd::string::StringSliceAdditionalSpecFns;
use vstd::utf8::{encode_utf8, valid_utf8};

use super::fixed::str_from_utf8;
use super::text::lemma_encode_utf8_concat;

verus! {

broadcast use vstd::utf8::group_utf8_lib;

/// The bytes that a `ThinVec<u8>` holds.
pub uninterp spec fn thin_vec_bytes(v: thin_vec::ThinVec<u8>) -> Seq<u8>;

/// Longest byte vector that the library grows without risk of a capacity overflow: half of the
/// largest allocation, less the header.
pub open spec fn thin_vec_max_len() -> int {
    (isize::MAX - 16) / 2
}

/// The bytes of the strings, one after the other.
pub open spec fn concat_str_bytes(strs: Seq<&str>) -> Seq<u8>
    decreases strs.len(),
{
    if strs.len() == 0 {
        Seq::empty()
    } else {
        concat_str_bytes(strs.drop_last()) + strs.last().spec_bytes()
    }
}

/// The number of bytes of the strings together.
pub open spec fn str_bytes_total(strs: Seq<&str>) -> int
    decreases strs.len(),
{
    if strs.len() == 0 {
        0
    } else {
        str_bytes_total(strs.drop_last()) + strs.last().spec_bytes().len()
    }
}

proof fn lemma_concat_str_bytes_len(strs: Seq<&str>)
    ensures
        concat_str_bytes(strs).len() == str_bytes_total(strs),
    decreases strs.len(),
{
    if strs.len() > 0 {
        lemma_concat_str_bytes_len(strs.drop_last());
    }
}

/// The bytes of a prefix of the strings are no more than those of all of them.
proof fn lemma_concat_str_bytes_prefix(strs: Seq<&str>, n: int)
    requires
        0 <= n <= strs.len(),
    ensures
        concat_str_bytes(strs.take(n)).len() <= concat_str_bytes(strs).len(),
    decreases strs.len() - n,
{
    if n < strs.len() {
        lemma_concat_str_bytes_prefix(strs, n + 1);
        assert(strs.take(n + 1).drop_last() =~= strs.take(n));
    } else {
        assert(strs.take(n) =~= strs);
    }
}

/// Calls `ThinVec::new`: an empty vector.
#[verifier::external_body]
fn thin_vec_new() -> (r: thin_vec::ThinVec<u8>)
    ensures
        thin_vec_bytes(r) == Seq::<u8>::empty(),
{
    thin_vec::ThinVec::new()
}

/// Calls `ThinVec::with_capacity`: an empty vector; it panics when the allocation size
/// overflows, which the precondition rules out.
#[verifier::external_body]
fn thin_vec_with_capacity(capacity: usize) -> (r: thin_vec::ThinVec<u8>)
    requires
        capacity <= thin_vec_max_len(),
    ensures
        thin_vec_bytes(r) == Seq::<u8>::empty(),
{
    thin_vec::ThinVec::with_capacity(capacity)
}

/// Calls `ThinVec::extend_from_slice`, which appends the bytes.
#[verifier::external_body]
fn thin_vec_extend_from_slice(v: &mut thin_vec::ThinVec<u8>, bytes: &[u8])
    requires
        thin_vec_bytes(*old(v)).len() + bytes@.len() <= thin_vec_max_len(),
    ensures
        thin_vec_bytes(*final(v)) == thin_vec_bytes(*old(v)) + bytes@,
{
    v.extend_from_slice(bytes)
}

/// Calls `ThinVec::clear`, which removes every byte.
#[verifier::external_body]
fn thin_vec_clear(v: &mut thin_vec::ThinVec<u8>)
    ensures
        thin_vec_bytes(*final(v)) == Seq::<u8>::empty(),
{
    v.clear()
}

/// Calls `ThinVec::reserve`, which changes the capacity only.
#[verifier::external_body]
fn thin_vec_reserve(v: &mut thin_vec::ThinVec<u8>, additional: usize)
    requires
        thin_vec_bytes(*old(v)).len() + additional <= thin_vec_max_len(),
    ensures
        thin_vec_bytes(*final(v)) == thin_vec_bytes(*old(v)),
{
    v.reserve(additional)
}

/// Calls `ThinVec::reserve_exact`, which changes the capacity only.
#[verifier::external_body]
fn thin_vec_reserve_exact(v: &mut thin_vec::ThinVec<u8>, additional: usize)
    requires
        thin_vec_bytes(*old(v)).len() + additional <= thin_vec_max_len(),
    ensures
        thin_vec_bytes(*final(v)) == thin_vec_bytes(*old(v)),
{
    v.reserve_exact(additional)
}

/// Calls `ThinVec::shrink_to_fit`, which changes the capacity only.
#[verifier::external_body]
fn thin_vec_shrink_to_fit(v: &mut thin_vec::ThinVec<u8>)
    ensures
        thin_vec_bytes(*final(v)) == thin_vec_bytes(*old(v)),
{
    v.shrink_to_fit()
}

/// Calls `ThinVec::as_slice`: the bytes of the vector.
#[verifier::external_body]
fn thin_vec_as_slice(v: &thin_vec::ThinVec<u8>) -> (r: &[u8])
    ensures
        r@ == thin_vec_bytes(*v),
{
    v.as_slice()
}

/// Calls `ThinVec::from` on a slice, which copies the bytes.
#[verifier::external_body]
fn thin_vec_from_slice(bytes: &[u8]) -> (r: thin_vec::ThinVec<u8>)
    ensures
        thin_vec_bytes(r) == bytes@,
{
    thin_vec::ThinVec::from(bytes)
}

/// Calls `char::encode_utf8` on a 4-byte buffer and copies out the bytes written: the UTF-8
/// encoding of the character.
#[verifier::external_body]
fn char_utf8_bytes(c: char) -> (r: Vec<u8>)
    ensures
        r@ == encode_utf8(seq![c]),
{
    let mut buf = [0u8; 4];
    c.encode_utf8(&mut buf).as_bytes().to_vec()
}

/// The error of bytes that are not valid UTF-8; it gives the bytes back.
#[derive(Debug, Clone)]
pub struct FromUtf8Error {
    bytes: thin_vec::ThinVec<u8>,
    error: core::str::Utf8Error,
}

impl FromUtf8Error {
    /// The bytes that failed to convert.
    pub fn as_bytes(&self) -> (r: &[u8])
        ensures
            r@ == self.spec_bytes(),
    {
        thin_vec_as_slice(&self.bytes)
    }

    /// The bytes that failed to convert.
    pub fn into_bytes(self) -> (r: thin_vec::ThinVec<u8>)
        ensures
            thin_vec_bytes(r) == self.spec_bytes(),
    {
        self.bytes
    }

    /// The error that UTF-8 validation reported.
    pub fn utf8_error(&self) -> (r: &core::str::Utf8Error)
        ensures
            *r == self.spec_error(),
    {
        &self.error
    }

    /// The error that UTF-8 validation reported.
    pub closed spec fn spec_error(self) -> core::str::Utf8Error {
        self.error
    }

    /// The bytes that failed to convert.
    pub closed spec fn spec_bytes(self) -> Seq<u8> {
        thin_vec_bytes(self.bytes)
    }
}

/// A UTF-8 string held in a `ThinVec`.
#[derive(Debug)]
pub struct ThinString(thin_vec::ThinVec<u8>);

impl View for ThinString {
    type V = Seq<u8>;

    /// The bytes of the string.
    closed spec fn view(&self) -> Seq<u8> {
        thin_vec_bytes(self.0)
    }
}

impl ThinString {
    #[verifier::type_invariant]
    spec fn utf8(self) -> bool {
        valid_utf8(thin_vec_bytes(self.0))
    }

    /// An empty string.
    pub fn new() -> (r: ThinString)
        ensures
            r@ == Seq::<u8>::empty(),
    {
        ThinString(thin_vec_new())
    }

    /// An empty string with room for `capacity` bytes.
    pub fn with_capacity(capacity: usize) -> (r: ThinString)
        requires
            capacity <= thin_vec_max_len(),
        ensures
            r@ == Seq::<u8>::empty(),
    {
        ThinString(thin_vec_with_capacity(capacity))
    }

    /// The string of the bytes when they are valid UTF-8, else an error that gives them back.
    pub fn from_utf8(vec: thin_vec::ThinVec<u8>) -> (r: Result<ThinString, FromUtf8Error>)
        ensures
            r is Ok <==> valid_utf8(thin_vec_bytes(vec)),
            r matches Ok(s) ==> s@ == thin_vec_bytes(vec),
            r matches Err(e) ==> e.spec_bytes() == thin_vec_bytes(vec),
    {
        let checked = match str_from_utf8(thin_vec_as_slice(&vec)) {
            Ok(_) => None,
            Err(error) => Some(error),
        };
        match checked {
            None => Ok(ThinString(vec)),
            Some(error) => Err(FromUtf8Error { bytes: vec, error }),
        }
    }

    /// The string.
    pub fn as_str(&self) -> (r: &str)
        ensures
            r.spec_bytes() == self@,
    {
        proof {
            use_type_invariant(self);
        }
        match str_from_utf8(thin_vec_as_slice(&self.0)) {
            Ok(s) => s,
            Err(_) => "",
        }
    }

    /// The bytes of the string.
    pub fn as_bytes(&self) -> (r: &[u8])
        ensures
            r@ == self@,
    {
        thin_vec_as_slice(&self.0)
    }

    /// Appends `s`.
    pub fn push_str(&mut self, s: &str)
        requires
            old(self)@.len() + s.spec_bytes().len() <= thin_vec_max_len(),
        ensures
            final(self)@ == old(self)@ + s.spec_bytes(),
    {
        proof {
            use_type_invariant(&*self);
        }
        let mut v = thin_vec_new();
        std::mem::swap(&mut v, &mut self.0);
        let ghost old_bytes = thin_vec_bytes(v);
        thin_vec_extend_from_slice(&mut v, s.as_bytes());
        proof {
            let d = vstd::utf8::decode_utf8(old_bytes);
            lemma_encode_utf8_concat(d, s@);
        }
        self.0 = v;
    }

    /// Appends the UTF-8 encoding of `c`.
    pub fn push(&mut self, c: char)
        requires
            old(self)@.len() + 4 <= thin_vec_max_len(),
        ensures
            final(self)@ == old(self)@ + encode_utf8(seq![c]),
    {
        proof {
            use_type_invariant(&*self);
        }
        let mut v = thin_vec_new();
        std::mem::swap(&mut v, &mut self.0);
        let ghost old_bytes = thin_vec_bytes(v);
        let bytes = char_utf8_bytes(c);
        proof {
            assert(bytes@.len() <= 4) by {
                reveal_with_fuel(encode_utf8, 2);
            }
        }
        thin_vec_extend_from_slice(&mut v, bytes.as_slice());
        proof {
            let d = vstd::utf8::decode_utf8(old_bytes);
            lemma_encode_utf8_concat(d, seq![c]);
        }
        self.0 = v;
    }

    /// Removes every byte.
    pub fn clear(&mut self)
        ensures
            final(self)@ == Seq::<u8>::empty(),
    {
        let mut v = thin_vec_new();
        std::mem::swap(&mut v, &mut self.0);
        thin_vec_clear(&mut v);
        self.0 = v;
    }

    /// Makes room for at least `additional` more bytes.
    pub fn reserve(&mut self, additional: usize)
        requires
            old(self)@.len() + additional <= thin_vec_max_len(),
        ensures
            final(self)@ == old(self)@,
    {
        proof {
            use_type_invariant(&*self);
        }
        let mut v = thin_vec_new();
        std::mem::swap(&mut v, &mut self.0);
        thin_vec_reserve(&mut v, additional);
        self.0 = v;
    }

    /// Makes room for exactly `additional` more bytes.
    pub fn reserve_exact(&mut self, additional: usize)
        requires
            old(self)@.len() + additional <= thin_vec_max_len(),
        ensures
            final(self)@ == old(self)@,
    {
        proof {
            use_type_invariant(&*self);
        }
        let mut v = thin_vec_new();
        std::mem::swap(&mut v, &mut self.0);
        thin_vec_reserve_exact(&mut v, additional);
        self.0 = v;
    }

    /// Shrinks the capacity to the length.
    pub fn shrink_to_fit(&mut self)
        ensures
            final(self)@ == old(self)@,
    {
        proof {
            use_type_invariant(&*self);
        }
        let mut v = thin_vec_new();
        std::mem::swap(&mut v, &mut self.0);
        thin_vec_shrink_to_fit(&mut v);
        self.0 = v;
    }

    /// The bytes of the string.
    pub fn into_bytes(self) -> (r: thin_vec::ThinVec<u8>)
        ensures
            thin_vec_bytes(r) == self@,
    {
        self.0
    }

    /// The length in bytes.
    pub fn len(&self) -> (r: usize)
        ensures
            r == self@.len(),
    {
        thin_vec_as_slice(&self.0).len()
    }

    /// Whether the string has no byte.
    pub fn is_empty(&self) -> (r: bool)
        ensures
            r == (self@.len() == 0),
    {
        thin_vec_as_slice(&self.0).len() == 0
    }

    /// The string of the bytes of `s`.
    pub fn from_str(s: &str) -> (r: ThinString)
        ensures
            r@ == s.spec_bytes(),
    {
        ThinString(thin_vec_from_slice(s.as_bytes()))
    }

    /// Appends the UTF-8 encoding of each character of `chars`, in order.
    pub fn extend_chars(&mut self, chars: &[char])
        requires
            old(self)@.len() + 4 * chars@.len() <= thin_vec_max_len(),
        ensures
            final(self)@ == old(self)@ + encode_utf8(chars@),
    {
        let ghost start = self@;
        let mut i: usize = 0;
        proof {
            assert(chars@.take(0) =~= Seq::<char>::empty());
            assert(start + encode_utf8(Seq::<char>::empty()) =~= start);
        }
        while i < chars.len()
            invariant
                i <= chars@.len(),
                self@ == start + encode_utf8(chars@.take(i as int)),
                self@.len() <= start.len() + 4 * i,
                start.len() + 4 * chars@.len() <= thin_vec_max_len(),
            decreases chars@.len() - i,
        {
            let c = chars[i];
            proof {
                assert(encode_utf8(seq![c]).len() <= 4) by {
                    reveal_with_fuel(encode_utf8, 2);
                }
                assert(chars@.take(i + 1) =~= chars@.take(i as int) + seq![c]);
                lemma_encode_utf8_concat(chars@.take(i as int), seq![c]);
            }
            self.push(c);
            i += 1;
        }
        proof {
            assert(chars@.take(i as int) =~= chars@);
        }
    }

    /// Appends the bytes of each string of `strs`, in order.
    pub fn extend_strs(&mut self, strs: &[&str])
        requires
            old(self)@.len() + str_bytes_total(strs@) <= thin_vec_max_len(),
        ensures
            final(self)@ == old(self)@ + concat_str_bytes(strs@),
    {
        let ghost start = self@;
        let mut i: usize = 0;
        proof {
            assert(strs@.take(0) =~= Seq::<&str>::empty());
            assert(start + Seq::<u8>::empty() =~= start);
            lemma_concat_str_bytes_len(strs@);
        }
        while i < strs.len()
            invariant
                i <= strs@.len(),
                self@ == start + concat_str_bytes(strs@.take(i as int)),
                start.len() + concat_str_bytes(strs@).len() <= thin_vec_max_len(),
                concat_str_bytes(strs@).len() == str_bytes_total(strs@),
            decreases strs@.len() - i,
        {
            let s = strs[i];
            proof {
                let p = strs@.take(i as int);
                assert(strs@.take(i + 1).drop_last() =~= p);
                lemma_concat_str_bytes_prefix(strs@, i as int + 1);
            }
            self.push_str(s);
            proof {
                let p = strs@.take(i as int);
                assert(start + concat_str_bytes(p) + s.spec_bytes() =~= start + (concat_str_bytes(p) + s.spec_bytes()));
            }
            i += 1;
        }
        proof {
            assert(strs@.take(i as int) =~= strs@);
        }
    }

    /// The string of the UTF-8 encodings of the characters of `chars`, in order.
    pub fn from_chars(chars: &[char]) -> (r: ThinString)
        requires
            4 * chars@.len() <= thin_vec_max_len(),
        ensures
            r@ == encode_utf8(chars@),
    {
        let mut s = ThinString::new();
        s.extend_chars(chars);
        assert(Seq::<u8>::empty() + encode_utf8(chars@) =~= encode_utf8(chars@));
        s
    }

    /// The string of the UTF-8 encoding of `c`.
    pub fn from_char(c: char) -> (r: ThinString)
        ensures
            r@ == encode_utf8(seq![c]),
    {
        let mut s = ThinString::new();
        assert(Seq::<u8>::empty() + encode_utf8(seq![c]) =~= encode_utf8(seq![c]));
        s.push(c);
        s
    }
}

impl Clone for ThinString {
    fn clone(&self) -> (r: ThinString)
        ensures
            r@ == self@,
    {
        proof {
            use_type_invariant(self);
        }
        ThinString(thin_vec_from_slice(self.as_bytes()))
    }
}

impl Default for ThinString {
    fn default() -> (r: ThinString)
        ensures
            r@ == Seq::<u8>::empty(),
    {
        ThinString::new()
    }
}

impl<'a> vstd::std_specs::convert::FromSpecImpl<&'a str> for ThinString {
    open spec fn obeys_from_spec() -> bool {
        false
    }

    closed spec fn from_spec(s: &'a str) -> ThinString {
        arbitrary()
    }
}

impl<'a> From<&'a str> for ThinString {
    fn from(s: &'a str) -> (r: ThinString)
        ensures
            r@ == s.spec_bytes(),
    {
        ThinString::from_str(s)
    }
}

impl vstd::std_specs::convert::FromSpecImpl<String> for ThinString {
    open spec fn obeys_from_spec() -> bool {
        false
    }

    closed spec fn from_spec(s: String) -> ThinString {
        arbitrary()
    }
}

impl From<String> for ThinString {
    fn from(s: String) -> (r: ThinString)
        ensures
            r@ == encode_utf8(s@),
    {
        ThinString::from_str(s.as_str())
    }
}

impl vstd::std_specs::convert::FromSpecImpl<char> for ThinString {
    open spec fn obeys_from_spec() -> bool {
        false
    }

    closed spec fn from_spec(c: char) -> ThinString {
        arbitrary()
    }
}

impl From<char> for ThinString {
    fn from(c: char) -> (r: ThinString)
        ensures
            r@ == encode_utf8(seq![c]),
    {
        ThinString::from_char(c)
    }
}

impl core::ops::Deref for ThinString {
    type Target = str;

    fn deref(&self) -> (r: &str)
        ensures
            r.spec_bytes() == self@,
    {
        self.as_str()
    }
}




} // verus!
