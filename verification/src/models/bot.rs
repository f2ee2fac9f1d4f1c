//! Bot tokens decomposed into their parts: bot id, timestamp and HMAC digest.

use vstd::bytes::{lemma_auto_spec_u64_to_from_le_bytes, spec_u64_from_le_bytes, spec_u64_to_le_bytes};
use vstd::prelude::*;
use vstd::slice::slice_subrange;
use vstd::string::StringSliceAdditionalSpecFns;

use super::auth::{BotToken, InvalidAuthToken};
use super::sf::Snowflake;
use crate::util::fixed::{is_ascii_bytes, lemma_ascii_bytes_valid_utf8};

verus! {

/// Decomposed bot token with its component parts
#[derive(Debug, Clone, Copy, PartialEq, Eq, Hash)]
pub struct SplitBotToken {
    pub id: Snowflake,
    pub ts: u64,
    pub hmac: [u8; 20],
}

/// The 36 bytes of a bot token: the id and the timestamp as little-endian `u64`s, then the digest.
pub open spec fn split_bot_token_bytes(t: SplitBotToken) -> Seq<u8> {
    spec_u64_to_le_bytes(t.id@) + spec_u64_to_le_bytes(t.ts) + t.hmac@
}

/// The id, timestamp and digest that 36 bytes hold, when the id is not zero.
pub open spec fn split_bot_token_parts(b: Seq<u8>) -> Option<(u64, u64, Seq<u8>)> {
    if b.len() == 36 && spec_u64_from_le_bytes(b.subrange(0, 8)) != 0 {
        Some((spec_u64_from_le_bytes(b.subrange(0, 8)), spec_u64_from_le_bytes(b.subrange(8, 16)), b.subrange(16, 36)))
    } else {
        None
    }
}

/// The parts that a 48-character base-64 token stands for.
pub open spec fn split_bot_token_text_parts(text: Seq<u8>) -> Option<(u64, u64, Seq<u8>)> {
    if text.len() == 48 {
        match base64_no_pad_decode_36(text) {
            Some(b) => split_bot_token_parts(b),
            None => None,
        }
    } else {
        None
    }
}

/// Whether `t` has the given parts.
pub open spec fn has_parts(t: SplitBotToken, parts: (u64, u64, Seq<u8>)) -> bool {
    t.id@ == parts.0 && t.ts == parts.1 && t.hmac@ == parts.2
}

/// The character of the standard base64 alphabet for a 6-bit value: `A-Z`, `a-z`, `0-9`,
/// `+` and `/`.
pub open spec fn base64_char(v: u8) -> u8 {
    if v < 26 {
        (65 + v) as u8
    } else if v < 52 {
        (97 + v - 26) as u8
    } else if v < 62 {
        (48 + v - 52) as u8
    } else if v == 62 {
        43u8
    } else {
        47u8
    }
}

/// What `base64::encode_config_slice` writes for `input` with the `STANDARD_NO_PAD`
/// configuration, for an input whose length is a multiple of three: each group of three bytes
/// becomes four characters, one for each six bits, most significant first.
pub open spec fn base64_no_pad_encode(input: Seq<u8>) -> Seq<u8>
    decreases input.len(),
{
    if input.len() < 3 {
        Seq::empty()
    } else {
        let (a, b, c) = (input[0], input[1], input[2]);
        seq![
            base64_char(a >> 2),
            base64_char(((a & 3) << 4) | (b >> 4)),
            base64_char(((b & 15) << 2) | (c >> 6)),
            base64_char(c & 63),
        ] + base64_no_pad_encode(input.subrange(3, input.len() as int))
    }
}

/// The 36-byte buffer that `base64::decode_config_slice` fills from `input` with the
/// `STANDARD_NO_PAD` configuration, starting from zeros; `None` when it reports an error.
pub uninterp spec fn base64_no_pad_decode_36(input: Seq<u8>) -> Option<Seq<u8>>;

/// Calls `byteorder::LittleEndian::write_u64` on an 8-byte buffer: the bytes of `v`, least
/// significant first.
#[verifier::external_body]
fn u64_to_le(v: u64) -> (r: [u8; 8])
    ensures
        r@ == spec_u64_to_le_bytes(v),
{
    let mut buf = [0u8; 8];
    <byteorder::LittleEndian as byteorder::ByteOrder>::write_u64(&mut buf, v);
    buf
}

/// Calls `byteorder::LittleEndian::read_u64`, which reads the first 8 bytes, least significant
/// first; it panics on fewer than 8 bytes, which the precondition rules out.
#[verifier::external_body]
fn u64_from_le(bytes: &[u8]) -> (r: u64)
    requires
        bytes@.len() == 8,
    ensures
        r == spec_u64_from_le_bytes(bytes@),
{
    <byteorder::LittleEndian as byteorder::ByteOrder>::read_u64(bytes)
}

/// Calls `base64::encode_config_slice` with the `STANDARD_NO_PAD` configuration into a 48-byte
/// buffer, which 36 input bytes fill exactly (so the call does not panic). The standard
/// alphabet is ASCII, and decoding the output with the same configuration gives the input back.
#[verifier::external_body]
fn base64_encode_36(input: &[u8; 36]) -> (r: [u8; 48])
    ensures
        r@ == base64_no_pad_encode(input@),
        is_ascii_bytes(r@),
        base64_no_pad_decode_36(r@) == Some(input@),
{
    let mut out = [0u8; 48];
    base64::encode_config_slice(input, base64::STANDARD_NO_PAD, &mut out);
    out
}

/// Calls `base64::decode_config_slice` with the `STANDARD_NO_PAD` configuration into a zeroed
/// 36-byte buffer; 48 input characters decode to at most 36 bytes, so the call does not panic.
#[verifier::external_body]
fn base64_decode_36(input: &[u8]) -> (r: Option<[u8; 36]>)
    requires
        input@.len() == 48,
    ensures
        r matches Some(b) ==> base64_no_pad_decode_36(input@) == Some(b@),
        r is None ==> base64_no_pad_decode_36(input@) is None,
{
    let mut out = [0u8; 36];
    match base64::decode_config_slice(input, base64::STANDARD_NO_PAD, &mut out) {
        Ok(_) => Some(out),
        Err(_) => None,
    }
}

impl SplitBotToken {
    pub const SPLIT_BOT_TOKEN_SIZE: usize = 36;

    /// The 36 bytes of the token.
    pub fn to_bytes(&self) -> (r: [u8; 36])
        ensures
            r@ == split_bot_token_bytes(*self),
    {
        let id = u64_to_le(self.id.to_u64());
        let ts = u64_to_le(self.ts);
        let mut bytes = [0u8; 36];
        let mut i: usize = 0;
        while i < 36
            invariant
                i <= 36,
                bytes@.len() == 36,
                id@ == spec_u64_to_le_bytes(self.id@),
                ts@ == spec_u64_to_le_bytes(self.ts),
                id@.len() == 8,
                ts@.len() == 8,
                forall|j: int| 0 <= j < i ==> bytes@[j] == split_bot_token_bytes(*self)[j],
            decreases 36 - i,
        {
            proof {
                lemma_auto_spec_u64_to_from_le_bytes();
            }
            if i < 8 {
                bytes[i] = id[i];
            } else if i < 16 {
                bytes[i] = ts[i - 8];
            } else {
                bytes[i] = self.hmac[i - 16];
            }
            i += 1;
        }
        proof {
            lemma_auto_spec_u64_to_from_le_bytes();
            assert(bytes@ =~= split_bot_token_bytes(*self));
        }
        bytes
    }

    /// Reads the 36 bytes of a token; the id must not be zero.
    pub fn try_from(bytes: &[u8]) -> (r: Result<SplitBotToken, InvalidAuthToken>)
        ensures
            match split_bot_token_parts(bytes@) {
                Some(parts) => r matches Ok(t) && has_parts(t, parts),
                None => r is Err,
            },
    {
        if bytes.len() != 36 {
            return Err(InvalidAuthToken);
        }
        let raw_id = u64_from_le(slice_subrange(bytes, 0, 8));
        let ts = u64_from_le(slice_subrange(bytes, 8, 16));
        let mut hmac = [0u8; 20];
        let mut i: usize = 0;
        while i < 20
            invariant
                i <= 20,
                hmac@.len() == 20,
                bytes@.len() == 36,
                forall|j: int| 0 <= j < i ==> hmac@[j] == bytes@[16 + j],
            decreases 20 - i,
        {
            hmac[i] = bytes[16 + i];
            i += 1;
        }
        assert(hmac@ =~= bytes@.subrange(16, 36));
        match Snowflake::new(raw_id) {
            Some(id) => Ok(SplitBotToken { id, ts, hmac }),
            None => Err(InvalidAuthToken),
        }
    }

    /// The base-64 text of the token, without padding; it reads back as the same token.
    pub fn format(&self) -> (r: BotToken)
        ensures
            r@ == base64_no_pad_encode(split_bot_token_bytes(*self)),
            split_bot_token_text_parts(r@) == Some((self.id@, self.ts, self.hmac@)),
    {
        let _id = self.id.to_u64();
        let bytes = self.to_bytes();
        let text = base64_encode_36(&bytes);
        proof {
            lemma_ascii_bytes_valid_utf8(text@);
        }
        let token = BotToken::from_utf8_bytes(text.as_slice());
        proof {
            law_bot_token_bytes_roundtrip(*self);
        }
        token
    }

    /// Reads the base-64 text of a token: 48 characters that decode to the 36 bytes of a token.
    pub fn from_str(s: &str) -> (r: Result<SplitBotToken, InvalidAuthToken>)
        ensures
            match split_bot_token_text_parts(s.spec_bytes()) {
                Some(parts) => r matches Ok(t) && has_parts(t, parts),
                None => r is Err,
            },
    {
        let text = s.as_bytes();
        if text.len() != 48 {
            return Err(InvalidAuthToken);
        }
        match base64_decode_36(text) {
            Some(bytes) => SplitBotToken::try_from(bytes.as_slice()),
            None => Err(InvalidAuthToken),
        }
    }
}

/// Reading the bytes of a token gives its parts back.
pub proof fn law_bot_token_bytes_roundtrip(t: SplitBotToken)
    requires
        t.id@ != 0,
    ensures
        split_bot_token_parts(split_bot_token_bytes(t)) == Some((t.id@, t.ts, t.hmac@)),
{
    lemma_auto_spec_u64_to_from_le_bytes();
    let b = split_bot_token_bytes(t);
    assert(b.subrange(0, 8) =~= spec_u64_to_le_bytes(t.id@));
    assert(b.subrange(8, 16) =~= spec_u64_to_le_bytes(t.ts));
    assert(b.subrange(16, 36) =~= t.hmac@);
}

} // verus!
