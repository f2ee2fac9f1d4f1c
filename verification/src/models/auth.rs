//! Auth tokens of users and bots, and the `Authorization` header that carries them.

use vstd::prelude::*;
use vstd::string::StringSliceAdditionalSpecFns;
use vstd::utf8::{decode_utf8, encode_utf8, is_ascii_chars, valid_utf8};

use crate::util::fixed::{lemma_fixed_str_len, FixedStr};
use crate::util::text::{
    is_unicode_whitespace, lemma_encode_utf8_concat, starts_with_chars, str_starts_with_chars, str_trim, trim_chars,
    trim_end_chars, trim_start_chars,
};

verus! {

broadcast use vstd::utf8::group_utf8_lib;

/// Base-64 encoded auth token of a user.
pub type BearerToken = FixedStr<28>;

/// Base-64 encoded auth token of a bot.
pub type BotToken = FixedStr<48>;

/// Prefix of the header of a user token.
pub open spec fn bearer_prefix() -> Seq<char> {
    seq!['B', 'e', 'a', 'r', 'e', 'r', ' ']
}

/// Prefix of the header of a bot token.
pub open spec fn bot_prefix() -> Seq<char> {
    seq!['B', 'o', 't', ' ']
}

/// The token that an `Authorization` header carries after `prefix`: once the header is
/// trimmed of surrounding whitespace, it must start with `prefix` and be exactly
/// `prefix.len() + token_len` bytes long; the token is the bytes after the prefix.
pub open spec fn header_token(header: Seq<char>, prefix: Seq<char>, token_len: nat) -> Option<Seq<u8>> {
    let t = trim_chars(header);
    if encode_utf8(t).len() == prefix.len() + token_len && starts_with_chars(t, prefix) {
        Some(encode_utf8(t.subrange(prefix.len() as int, t.len() as int)))
    } else {
        None
    }
}

/// The bytes of a bare token, once trimmed of surrounding whitespace.
pub open spec fn bare_token(text: Seq<char>) -> Seq<u8> {
    encode_utf8(trim_chars(text))
}

/// Raw base64-encoded auth tokens for users and bots.
#[derive(Debug, Clone, Copy)]
pub enum AuthToken {
    Bearer(BearerToken),
    Bot(BotToken),
}

/// The error of a header or token that is not a valid auth token.
#[derive(Debug, Clone, Copy, PartialEq, Eq, Structural)]
pub struct InvalidAuthToken;

impl AuthToken {
    /// The bytes of the token.
    pub open spec fn token_bytes(self) -> Seq<u8> {
        match self {
            AuthToken::Bearer(t) => t@,
            AuthToken::Bot(t) => t@,
        }
    }

    /// The header prefix of the kind of the token.
    pub open spec fn prefix(self) -> Seq<char> {
        match self {
            AuthToken::Bearer(_) => bearer_prefix(),
            AuthToken::Bot(_) => bot_prefix(),
        }
    }

    /// The token as a string.
    pub fn as_str(&self) -> (r: &str)
        ensures
            r.spec_bytes() == self.token_bytes(),
            self.token_bytes().len() == match self {
                AuthToken::Bearer(_) => 28nat,
                AuthToken::Bot(_) => 48nat,
            },
    {
        match self {
            AuthToken::Bearer(token) => token.as_str(),
            AuthToken::Bot(token) => token.as_str(),
        }
    }

    /// The value of the `Authorization` header: the prefix of the kind of token, then the token.
    pub fn raw_header(&self) -> (r: arrayvec::ArrayString<52>)
        ensures
            array_string_chars(r) == self.prefix() + decode_utf8(self.token_bytes()),
            encode_utf8(array_string_chars(r)) == encode_utf8(self.prefix()) + self.token_bytes(),
    {
        let prefix: &str = match self {
            AuthToken::Bearer(_) => "Bearer ",
            AuthToken::Bot(_) => "Bot ",
        };
        proof {
            reveal_strlit("Bearer ");
            reveal_strlit("Bot ");
            assert(is_ascii_chars(prefix@));
        }
        let value = self.as_str();
        proof {
            let p = self.prefix();
            assert(prefix@ == p);
            assert(encode_utf8(p).len() == p.len());
        }
        let mut buffer = array_string_new();
        proof {
            assert(array_string_chars(buffer) + prefix@ =~= prefix@);
        }
        array_string_push_str(&mut buffer, prefix);
        proof {
            assert(array_string_chars(buffer) == prefix@);
            assert(encode_utf8(prefix@).len() == prefix@.len());
            match self {
                AuthToken::Bearer(t) => {
                    assert(prefix@.len() == 7);
                    assert(value.spec_bytes().len() == 28);
                },
                AuthToken::Bot(t) => {
                    assert(prefix@.len() == 4);
                    assert(value.spec_bytes().len() == 48);
                },
            }
        }
        array_string_push_str(&mut buffer, value);
        proof {
            lemma_encode_utf8_concat(prefix@, value@);
            vstd::utf8::encode_utf8_decode_utf8(value@);
        }
        buffer
    }

    /// Reads an `Authorization` header value: `Bearer ` and a user token, or `Bot ` and a
    /// bot token, with surrounding whitespace ignored.
    pub fn from_header(value: &str) -> (r: Result<AuthToken, InvalidAuthToken>)
        ensures
            header_token(value@, bearer_prefix(), 28) matches Some(b) ==> (r matches Ok(
                AuthToken::Bearer(t),
            ) && t@ == b),
            header_token(value@, bearer_prefix(), 28) is None ==> (header_token(value@, bot_prefix(), 48) matches Some(
                b,
            ) ==> (r matches Ok(AuthToken::Bot(t)) && t@ == b)),
            header_token(value@, bearer_prefix(), 28) is None && header_token(value@, bot_prefix(), 48) is None
                ==> r is Err,
    {
        let value = str_trim(value);
        let len = value.as_bytes().len();
        let bearer: [char; 7] = ['B', 'e', 'a', 'r', 'e', 'r', ' '];
        let bot: [char; 4] = ['B', 'o', 't', ' '];
        proof {
            assert(bearer@ == bearer_prefix());
            assert(bot@ == bot_prefix());
        }
        if len == 35 && str_starts_with_chars(value, bearer.as_slice()) {
            let n = value.unicode_len();
            let token = value.substring_char(7, n);
            proof {
                lemma_split_prefix(value@, bearer_prefix());
            }
            return Ok(AuthToken::Bearer(BearerToken::new(token)));
        }
        if len == 52 && str_starts_with_chars(value, bot.as_slice()) {
            let n = value.unicode_len();
            let token = value.substring_char(4, n);
            proof {
                lemma_split_prefix(value@, bot_prefix());
            }
            return Ok(AuthToken::Bot(BotToken::new(token)));
        }
        Err(InvalidAuthToken)
    }

    /// Reads a bare token: 28 bytes make a user token, 48 bytes a bot token, with surrounding
    /// whitespace ignored.
    pub fn from_str(value: &str) -> (r: Result<AuthToken, InvalidAuthToken>)
        ensures
            bare_token(value@).len() == 28 ==> (r matches Ok(AuthToken::Bearer(t)) && t@ == bare_token(value@)),
            bare_token(value@).len() == 48 ==> (r matches Ok(AuthToken::Bot(t)) && t@ == bare_token(value@)),
            bare_token(value@).len() != 28 && bare_token(value@).len() != 48 ==> r is Err,
    {
        let value = str_trim(value);
        let len = value.as_bytes().len();
        if len == 28 {
            return Ok(AuthToken::Bearer(BearerToken::new(value)));
        }
        if len == 48 {
            return Ok(AuthToken::Bot(BotToken::new(value)));
        }
        Err(InvalidAuthToken)
    }
}

/// A string that starts with an ASCII prefix encodes as the prefix bytes, then the rest.
proof fn lemma_split_prefix(t: Seq<char>, prefix: Seq<char>)
    requires
        starts_with_chars(t, prefix),
        is_ascii_chars(prefix),
    ensures
        encode_utf8(t).len() == prefix.len() + encode_utf8(t.subrange(prefix.len() as int, t.len() as int)).len(),
{
    let rest = t.subrange(prefix.len() as int, t.len() as int);
    assert(t =~= prefix + rest);
    lemma_encode_utf8_concat(prefix, rest);
}

/// The characters that an `ArrayString` holds.
pub uninterp spec fn array_string_chars(s: arrayvec::ArrayString<52>) -> Seq<char>;

#[verifier::external_type_specification]
#[verifier::external_body]
pub struct ExArrayString<const CAP: usize>(arrayvec::ArrayString<CAP>);

/// Calls `ArrayString::new`: an empty string.
#[verifier::external_body]
fn array_string_new() -> (r: arrayvec::ArrayString<52>)
    ensures
        array_string_chars(r) == Seq::<char>::empty(),
{
    arrayvec::ArrayString::new()
}

/// Calls `ArrayString::push_str`, which appends `text`; it panics when the bytes would not
/// fit in the capacity, which the precondition rules out.
#[verifier::external_body]
fn array_string_push_str(s: &mut arrayvec::ArrayString<52>, text: &str)
    requires
        encode_utf8(array_string_chars(*old(s))).len() + text.spec_bytes().len() <= 52,
    ensures
        array_string_chars(*final(s)) == array_string_chars(*old(s)) + text@,
{
    s.push_str(text)
}

/// Calls `ArrayString::as_str`: the characters that the string holds.
#[verifier::external_body]
fn array_string_as_str(s: &arrayvec::ArrayString<52>) -> (r: &str)
    ensures
        r@ == array_string_chars(*s),
{
    s.as_str()
}

/// Header value of the `http` crate.
#[verifier::external_type_specification]
#[verifier::external_body]
pub struct ExHeaderValue(http::HeaderValue);

/// Error of the `http` crate for bytes that cannot stand in a header value.
#[verifier::external_type_specification]
#[verifier::external_body]
pub struct ExInvalidHeaderValue(http::header::InvalidHeaderValue);

/// Whether a byte may stand in a header value: a tab, or any byte from 32 up but 127.
pub open spec fn header_value_byte(b: u8) -> bool {
    (b >= 32 && b != 127) || b == 9
}

/// The bytes that a header value holds.
pub uninterp spec fn header_value_bytes(h: http::HeaderValue) -> Seq<u8>;

/// Whether a header value is marked sensitive.
pub uninterp spec fn header_value_sensitive(h: http::HeaderValue) -> bool;

/// Calls `http::HeaderValue::from_str`, which checks every byte of `text` and returns an
/// error exactly when one may not stand in a header value; the value it returns holds a copy
/// of the bytes and is not marked sensitive.
#[verifier::external_body]
fn header_value_from_str(text: &str) -> (r: Result<http::HeaderValue, http::header::InvalidHeaderValue>)
    ensures
        r is Ok <==> forall|i: int| 0 <= i < text.spec_bytes().len() ==> header_value_byte(#[trigger] text.spec_bytes()[i]),
        r matches Ok(h) ==> header_value_bytes(h) == text.spec_bytes() && !header_value_sensitive(h),
{
    http::HeaderValue::from_str(text)
}

/// Calls `http::HeaderValue::set_sensitive`, which sets the sensitive mark and keeps the bytes.
#[verifier::external_body]
fn header_value_set_sensitive(h: &mut http::HeaderValue, sensitive: bool)
    ensures
        header_value_bytes(*final(h)) == header_value_bytes(*old(h)),
        header_value_sensitive(*final(h)) == sensitive,
{
    h.set_sensitive(sensitive)
}

impl AuthToken {
    /// The `Authorization` header value of the token, marked sensitive; an error when a byte of
    /// the token may not stand in a header value.
    pub fn headervalue(&self) -> (r: Result<http::HeaderValue, http::header::InvalidHeaderValue>)
        ensures
            r is Ok <==> forall|i: int|
                0 <= i < (encode_utf8(self.prefix()) + self.token_bytes()).len() ==> header_value_byte(
                    #[trigger] (encode_utf8(self.prefix()) + self.token_bytes())[i],
                ),
            r matches Ok(h) ==> header_value_bytes(h) == encode_utf8(self.prefix()) + self.token_bytes()
                && header_value_sensitive(h),
    {
        let header = self.raw_header();
        let text = array_string_as_str(&header);
        proof {
            assert(text.spec_bytes() == encode_utf8(self.prefix()) + self.token_bytes());
        }
        match header_value_from_str(text) {
            Ok(h) => {
                let mut h = h;
                header_value_set_sensitive(&mut h, true);
                Ok(h)
            },
            Err(e) => Err(e),
        }
    }
}

impl AuthToken {
    /// Reads an untrimmed token: 28 bytes make a user token, 48 bytes a bot token.
    pub fn from_token(value: &str) -> (r: Result<AuthToken, InvalidAuthToken>)
        ensures
            value.spec_bytes().len() == 28 ==> (r matches Ok(AuthToken::Bearer(t)) && t@ == value.spec_bytes()),
            value.spec_bytes().len() == 48 ==> (r matches Ok(AuthToken::Bot(t)) && t@ == value.spec_bytes()),
            value.spec_bytes().len() != 28 && value.spec_bytes().len() != 48 ==> r is Err,
    {
        let len = value.as_bytes().len();
        if len == 28 {
            Ok(AuthToken::Bearer(BearerToken::new(value)))
        } else if len == 48 {
            Ok(AuthToken::Bot(BotToken::new(value)))
        } else {
            Err(InvalidAuthToken)
        }
    }
}

impl core::ops::Deref for AuthToken {
    type Target = str;

    fn deref(&self) -> (r: &str)
        ensures
            r.spec_bytes() == self.token_bytes(),
    {
        self.as_str()
    }
}

/// The header of a token whose last character is not whitespace reads back as that token:
/// trimming leaves the header as it is, it starts with the prefix, and the token follows.
pub proof fn law_header_roundtrip(prefix: Seq<char>, token: Seq<char>, token_len: nat)
    requires
        prefix == bearer_prefix() || prefix == bot_prefix(),
        encode_utf8(token).len() == token_len,
        token.len() > 0,
        !is_unicode_whitespace(token.last()),
    ensures
        header_token(prefix + token, prefix, token_len) == Some(encode_utf8(token)),
{
    let h = prefix + token;
    assert(!is_unicode_whitespace(h[0]));
    assert(trim_start_chars(h) == h);
    assert(h.last() == token.last());
    assert(trim_end_chars(h) == h);
    assert(is_ascii_chars(prefix));
    vstd::utf8::is_ascii_chars_encode_utf8(prefix);
    lemma_encode_utf8_concat(prefix, token);
    assert(h.subrange(0, prefix.len() as int) =~= prefix);
    assert(h.subrange(prefix.len() as int, h.len() as int) =~= token);
}

/// The header that `raw_header` makes of a token reads back through `from_header` as a token
/// of the same kind with the same bytes, when the token's last character is not whitespace:
/// a user token's header carries it after `Bearer `, and a bot token's header carries no user
/// token and carries it after `Bot `.
pub proof fn law_raw_header_reads_back(t: AuthToken)
    requires
        valid_utf8(t.token_bytes()),
        decode_utf8(t.token_bytes()).len() > 0,
        !is_unicode_whitespace(decode_utf8(t.token_bytes()).last()),
    ensures
        t is Bearer ==> header_token(t.prefix() + decode_utf8(t.token_bytes()), bearer_prefix(), 28) == Some(
            t.token_bytes(),
        ),
        t is Bot ==> header_token(t.prefix() + decode_utf8(t.token_bytes()), bearer_prefix(), 28) is None
            && header_token(t.prefix() + decode_utf8(t.token_bytes()), bot_prefix(), 48) == Some(t.token_bytes()),
{
    let token = decode_utf8(t.token_bytes());
    vstd::utf8::decode_utf8_encode_utf8(t.token_bytes());
    let h = t.prefix() + token;
    match t {
        AuthToken::Bearer(b) => {
            lemma_fixed_str_len(b);
            law_header_roundtrip(bearer_prefix(), token, 28);
        },
        AuthToken::Bot(b) => {
            lemma_fixed_str_len(b);
            law_header_roundtrip(bot_prefix(), token, 48);
            assert(trim_chars(h) == h) by {
                assert(!is_unicode_whitespace(h[0]));
                assert(trim_start_chars(h) == h);
                assert(h.last() == token.last());
                assert(trim_end_chars(h) == h);
            }
            vstd::utf8::is_ascii_chars_encode_utf8(bot_prefix());
            lemma_encode_utf8_concat(bot_prefix(), token);
            assert(encode_utf8(h).len() == 52);
        },
    }
}

impl AuthToken {
    /// The text of the `Authorization` header: the prefix of the kind of token, then the token.
    pub fn to_string(&self) -> (r: String)
        ensures
            encode_utf8(r@) == encode_utf8(self.prefix()) + self.token_bytes(),
    {
        let header = self.raw_header();
        String::from_str(array_string_as_str(&header))
    }
}

} // verus!
