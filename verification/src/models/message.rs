//! Messages of a room: flags, reactions, attachments and embeds.

use vstd::prelude::*;

use super::embed::Embed;
use super::file::File;
use super::party::PartyMember;
use super::sf::{parse_snowflake, EmoteId, FolderId, MessageId, ParseSnowflakeError, PartyId, RoleId, RoomId, Snowflake, UserId};
use crate::ext::{smol_str_as_str, smol_str_chars, smol_str_new};
use crate::util::digits::{ascii_text, digits_bytes};
use vstd::slice::slice_subrange;
use vstd::string::StringSliceAdditionalSpecFns;
use vstd::utf8::{decode_utf8, encode_utf8, valid_utf8};

verus! {

/// Flags of a message.
#[derive(Debug, Clone, Copy, PartialEq, Eq, Structural, Hash)]
pub struct MessageFlags {
    bits: i32,
}

impl View for MessageFlags {
    type V = i32;

    closed spec fn view(&self) -> i32 {
        self.bits
    }
}

/// Union of the bits of every named flag of [`MessageFlags`].
pub open spec fn message_all_bits() -> i32 {
    (-67103681i32)
}

#[allow(non_snake_case)]
impl MessageFlags {
    /// This message has been deleted
    pub fn DELETED() -> (r: MessageFlags)
        ensures
            r@ == 0x1i32,
    {
        MessageFlags { bits: 0x1i32 }
    }

    /// This messages has been deleted by another user
    pub fn REMOVED() -> (r: MessageFlags)
        ensures
            r@ == 0x2i32,
    {
        MessageFlags { bits: 0x2i32 }
    }

    /// If this message has children
    pub fn PARENT() -> (r: MessageFlags)
        ensures
            r@ == 0x4i32,
    {
        MessageFlags { bits: 0x4i32 }
    }

    pub fn MENTIONS_EVERYONE() -> (r: MessageFlags)
        ensures
            r@ == 0x8i32,
    {
        MessageFlags { bits: 0x8i32 }
    }

    pub fn MENTIONS_HERE() -> (r: MessageFlags)
        ensures
            r@ == 0x10i32,
    {
        MessageFlags { bits: 0x10i32 }
    }

    pub fn TTS() -> (r: MessageFlags)
        ensures
            r@ == 0x20i32,
    {
        MessageFlags { bits: 0x20i32 }
    }

    pub fn SUPRESS_EMBEDS() -> (r: MessageFlags)
        ensures
            r@ == 0x400i32,
    {
        MessageFlags { bits: 0x400i32 }
    }

    /// Set if the message has been starred by the user requesting it
    pub fn STARRED() -> (r: MessageFlags)
        ensures
            r@ == 0x1000i32,
    {
        MessageFlags { bits: 0x1000i32 }
    }

    /// Top 6 bits are a language code,
    /// which is never actually exposed to users.
    pub fn LANGUAGE() -> (r: MessageFlags)
        ensures
            r@ == (-67108864i32),
    {
        MessageFlags { bits: (-67108864i32) }
    }

    /// The raw bits.
    pub fn bits(&self) -> (r: i32)
        ensures
            r == self@,
    {
        self.bits
    }

    /// No flags.
    pub fn empty() -> (r: MessageFlags)
        ensures
            r@ == 0,
    {
        MessageFlags { bits: 0 }
    }

    /// Every named flag.
    pub fn all() -> (r: MessageFlags)
        ensures
            r@ == message_all_bits(),
    {
        MessageFlags { bits: (-67103681i32) }
    }

    /// Keeps the named flags of `bits` and drops the other bits.
    pub fn from_bits_truncate(bits: i32) -> (r: MessageFlags)
        ensures
            r@ == bits & message_all_bits(),
    {
        MessageFlags { bits: bits & (-67103681i32) }
    }

    /// Keeps `bits` exactly as given.
    pub fn from_bits_retain(bits: i32) -> (r: MessageFlags)
        ensures
            r@ == bits,
    {
        MessageFlags { bits }
    }

    /// `Some` exactly when every bit of `bits` names a flag.
    pub fn from_bits(bits: i32) -> (r: Option<MessageFlags>)
        ensures
            r is Some <==> bits & !message_all_bits() == 0,
            r matches Some(f) ==> f@ == bits,
    {
        if bits & !(-67103681i32) == 0 {
            Some(MessageFlags { bits })
        } else {
            None
        }
    }

    pub fn is_empty(&self) -> (r: bool)
        ensures
            r == (self@ == 0),
    {
        self.bits == 0
    }

    /// Whether every flag of `other` is set in `self`.
    pub fn contains(&self, other: MessageFlags) -> (r: bool)
        ensures
            r == (self@ & other@ == other@),
    {
        self.bits & other.bits == other.bits
    }

    pub fn union(self, other: MessageFlags) -> (r: MessageFlags)
        ensures
            r@ == self@ | other@,
    {
        MessageFlags { bits: self.bits | other.bits }
    }

    pub fn intersection(self, other: MessageFlags) -> (r: MessageFlags)
        ensures
            r@ == self@ & other@,
    {
        MessageFlags { bits: self.bits & other.bits }
    }

    /// The flags of `self` that are not in `other`.
    pub fn difference(self, other: MessageFlags) -> (r: MessageFlags)
        ensures
            r@ == self@ & !other@,
    {
        MessageFlags { bits: self.bits & !other.bits }
    }

    /// The named flags that are not in `self`.
    pub fn complement(self) -> (r: MessageFlags)
        ensures
            r@ == !self@ & message_all_bits(),
    {
        MessageFlags { bits: !self.bits & (-67103681i32) }
    }
}

impl MessageFlags {
    /// The named flags of `bits`, without the language code, which is never shown to users.
    pub fn from_bits_truncate_public(bits: i32) -> (r: MessageFlags)
        ensures
            r@ == (bits & message_all_bits()) & !(-67108864i32),
    {
        MessageFlags::from_bits_truncate(bits).difference(MessageFlags::LANGUAGE())
    }
}

/// Kind of a message.
#[derive(Debug, Clone, Copy, PartialEq, Eq, Structural)]
pub enum MessageKind {
    Normal,
    Welcome,
    Ephemeral,
    Unavailable,
}

impl Default for MessageKind {
    fn default() -> (r: MessageKind)
        ensures
            r == MessageKind::Normal,
    {
        MessageKind::Normal
    }
}

/// Simple enum for custom emote ids or emoji symbols
#[derive(Debug, Clone)]
pub enum EmoteOrEmoji {
    Emote { emote: EmoteId },
    Emoji { emoji: smol_str::SmolStr },
}

/// A reaction as a count of users.
#[derive(Debug, Clone)]
pub struct ReactionShorthand {
    pub emote: EmoteOrEmoji,
    pub me: bool,
    pub count: i64,
}

/// A reaction with the users who reacted.
#[derive(Debug, Clone)]
pub struct ReactionFull {
    pub emote: EmoteOrEmoji,
    pub users: thin_vec::ThinVec<UserId>,
}

/// A reaction to a message.
#[derive(Debug, Clone)]
pub enum Reaction {
    Shorthand(ReactionShorthand),
    Full(ReactionFull),
}

/// A file attached to a message.
#[derive(Debug, Clone)]
pub struct Attachment {
    pub file: File,
}

/// A message of a room.
#[derive(Debug, Clone)]
pub struct Message {
    pub id: MessageId,
    pub room_id: RoomId,
    pub party_id: PartyId,
    pub kind: MessageKind,
    pub author: PartyMember,
    pub parent: Option<MessageId>,
    pub edited_at: Option<iso8601_timestamp::Timestamp>,
    pub content: Option<smol_str::SmolStr>,
    pub flags: MessageFlags,
    pub pins: thin_vec::ThinVec<FolderId>,
    pub user_mentions: thin_vec::ThinVec<UserId>,
    pub role_mentions: thin_vec::ThinVec<RoleId>,
    pub room_mentions: thin_vec::ThinVec<RoomId>,
    pub reactions: thin_vec::ThinVec<Reaction>,
    pub attachments: thin_vec::ThinVec<Attachment>,
    pub embeds: thin_vec::ThinVec<Embed>,
    pub score: i32,
}

/// Whether a byte is an ASCII letter or digit.
pub open spec fn is_ascii_alphanumeric(b: u8) -> bool {
    (48 <= b <= 57) || (65 <= b <= 90) || (97 <= b <= 122)
}

/// The uppercase hexadecimal digit of a value below 16.
pub open spec fn hex_upper(d: u8) -> char {
    if d < 10 {
        (48 + d) as char
    } else {
        (55 + d) as char
    }
}

/// A byte once percent-encoded with every byte but ASCII letters and digits escaped: the
/// letter or digit itself, or `%` and two uppercase hexadecimal digits.
pub open spec fn pct_encode_byte(b: u8) -> Seq<char> {
    if is_ascii_alphanumeric(b) {
        seq![b as char]
    } else {
        seq!['%', hex_upper(b / 16), hex_upper(b % 16)]
    }
}

/// The bytes once percent-encoded with every byte but ASCII letters and digits escaped.
pub open spec fn pct_encoded(bytes: Seq<u8>) -> Seq<char>
    decreases bytes.len(),
{
    if bytes.len() == 0 {
        Seq::empty()
    } else {
        pct_encoded(bytes.drop_last()) + pct_encode_byte(bytes.last())
    }
}

/// The value of a hexadecimal digit, in either case.
pub open spec fn hex_value(b: u8) -> Option<u8> {
    if 48 <= b <= 57 {
        Some((b - 48) as u8)
    } else if 65 <= b <= 70 {
        Some((b - 55) as u8)
    } else if 97 <= b <= 102 {
        Some((b - 87) as u8)
    } else {
        None
    }
}

/// The bytes once percent-decoded: each `%` followed by two hexadecimal digits becomes the
/// byte they spell; every other byte stays.
pub open spec fn pct_decoded(b: Seq<u8>) -> Seq<u8>
    decreases b.len(),
{
    if b.len() == 0 {
        Seq::empty()
    } else if b.len() >= 3 && b[0] == 37u8 && hex_value(b[1]) is Some && hex_value(b[2]) is Some {
        seq![(hex_value(b[1]).unwrap() * 16 + hex_value(b[2]).unwrap()) as u8] + pct_decoded(
            b.subrange(3, b.len() as int),
        )
    } else {
        seq![b[0]] + pct_decoded(b.drop_first())
    }
}

/// The text that `percent_encoding::percent_decode_str` followed by `decode_utf8_lossy`
/// gives for `text`.
pub uninterp spec fn percent_decode_lossy_text(text: Seq<char>) -> Seq<char>;

/// Calls `percent_encoding::percent_encode` with the `NON_ALPHANUMERIC` set and collects the
/// text: every byte but ASCII letters and digits becomes `%` and its two uppercase
/// hexadecimal digits.
#[verifier::external_body]
fn percent_encode_non_alphanumeric(bytes: &[u8]) -> (r: String)
    ensures
        r@ == pct_encoded(bytes@),
{
    percent_encoding::percent_encode(bytes, percent_encoding::NON_ALPHANUMERIC).to_string()
}

/// Calls `percent_encoding::percent_decode_str` and then `decode_utf8_lossy`, which decodes
/// each `%` followed by two hexadecimal digits and reads the bytes as UTF-8, each invalid
/// sequence replaced by U+FFFD; when the decoded bytes are valid UTF-8 the text is theirs.
#[verifier::external_body]
fn percent_decode_lossy(text: &str) -> (r: String)
    ensures
        r@ == percent_decode_lossy_text(text@),
        valid_utf8(pct_decoded(text.spec_bytes())) ==> r@ == decode_utf8(pct_decoded(text.spec_bytes())),
{
    percent_encoding::percent_decode_str(text).decode_utf8_lossy().into_owned()
}

impl EmoteOrEmoji {
    /// The text of the emote in a URL: `:` and the emote's id, or the percent-encoded emoji.
    pub fn to_string(&self) -> (r: String)
        ensures
            match *self {
                EmoteOrEmoji::Emoji { emoji } => r@ == pct_encoded(encode_utf8(smol_str_chars(emoji))),
                EmoteOrEmoji::Emote { emote } => r@ == seq![':'] + ascii_text(digits_bytes(emote@ as nat, 10)),
            },
    {
        match self {
            EmoteOrEmoji::Emoji { emoji } => {
                let text = smol_str_as_str(emoji);
                percent_encode_non_alphanumeric(text.as_bytes())
            },
            EmoteOrEmoji::Emote { emote } => {
                let mut out = String::from_str(":");
                out.append(emote.to_string().as_str());
                proof {
                    reveal_strlit(":");
                }
                out
            },
        }
    }

    /// Reads the text of an emote in a URL: `:` and an emote's id, or a percent-encoded emoji;
    /// empty text is an empty emoji.
    pub fn from_str(s: &str) -> (r: Result<EmoteOrEmoji, ParseSnowflakeError>)
        ensures
            s.spec_bytes().len() == 0 ==> (r matches Ok(EmoteOrEmoji::Emoji { emoji }) && smol_str_chars(emoji).len()
                == 0),
            s.spec_bytes().len() > 0 && s.spec_bytes()[0] == 58u8 ==> match parse_snowflake(
                s.spec_bytes().drop_first(),
            ) {
                Some(v) => r matches Ok(EmoteOrEmoji::Emote { emote }) && emote@ == v,
                None => r is Err,
            },
            s.spec_bytes().len() > 0 && s.spec_bytes()[0] != 58u8 ==> (r matches Ok(EmoteOrEmoji::Emoji { emoji })
                && smol_str_chars(emoji) == percent_decode_lossy_text(s@)),
    {
        let bytes = s.as_bytes();
        if bytes.len() == 0 {
            proof {
                reveal_strlit("");
            }
            return Ok(EmoteOrEmoji::Emoji { emoji: smol_str_new("") });
        }
        if bytes[0] == 58u8 {
            let rest = slice_subrange(bytes, 1, bytes.len());
            proof {
                assert(rest@ =~= s.spec_bytes().drop_first());
            }
            return match Snowflake::parse_bytes(rest) {
                Ok(emote) => Ok(EmoteOrEmoji::Emote { emote }),
                Err(e) => Err(e),
            };
        }
        let decoded = percent_decode_lossy(s);
        Ok(EmoteOrEmoji::Emoji { emoji: smol_str_new(decoded.as_str()) })
    }
}

} // verus!
