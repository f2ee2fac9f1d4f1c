//! Snowflake identifiers.

use vstd::prelude::*;
use vstd::string::StringSliceAdditionalSpecFns;

use crate::util::digits::{ascii_string, ascii_text, digits, digits_bytes, parse_u64, parse_u64_decimal};

verus! {

/// Arbitrarily chosen starting epoch to offset the clock by, in milliseconds since the UNIX epoch.
pub const LANTERN_EPOCH: u64 = 1550102400000;

/// A 64-bit unique identifier. A snowflake is never zero.
#[derive(Debug, Clone, Copy, PartialEq, Eq, Structural, Hash)]
pub struct Snowflake(u64);

impl View for Snowflake {
    type V = u64;

    closed spec fn view(&self) -> u64 {
        self.0
    }
}

impl Snowflake {
    #[verifier::type_invariant]
    spec fn non_zero(self) -> bool {
        self.0 != 0
    }

    /// Builds a snowflake from its raw value, or `None` for zero.
    pub fn new(value: u64) -> (r: Option<Snowflake>)
        ensures
            r is Some <==> value != 0,
            r matches Some(s) ==> s@ == value,
    {
        if value == 0 {
            None
        } else {
            Some(Snowflake(value))
        }
    }

    /// The smallest snowflake, 1.
    pub fn null() -> (r: Snowflake)
        ensures
            r@ == 1,
    {
        Snowflake(1)
    }

    /// The raw value of the snowflake.
    pub fn to_u64(&self) -> (r: u64)
        ensures
            r == self@,
            r != 0,
    {
        proof {
            use_type_invariant(self);
        }
        self.0
    }

    /// Compares two snowflakes by value.
    pub fn same(&self, other: &Snowflake) -> (r: bool)
        ensures
            r == (*self == *other),
    {
        self.0 == other.0
    }
}

/// Snowflake ID for a Party
pub type PartyId = Snowflake;

/// Snowflake ID for a User
pub type UserId = Snowflake;

/// Snowflake ID for a Role
pub type RoleId = Snowflake;

/// Snowflake ID for a Room
pub type RoomId = Snowflake;

/// Snowflake ID for a Message
pub type MessageId = Snowflake;

/// Snowflake ID for a Custom Emote
pub type EmoteId = Snowflake;

/// Snowflake ID for a File
pub type FileId = Snowflake;

/// Snowflake ID for an party Invite
pub type InviteId = Snowflake;

/// Snowflake ID for a message Thread
pub type ThreadId = Snowflake;

/// Snowflake ID for a Pin Folder
pub type FolderId = Snowflake;

/// The error of a text that is not a snowflake.
#[derive(Debug, Clone, Copy, PartialEq, Eq, Structural)]
pub struct ParseSnowflakeError;

/// The snowflake that decimal text reads as: an unsigned 64-bit integer that is not zero.
pub open spec fn parse_snowflake(b: Seq<u8>) -> Option<u64> {
    match parse_u64_decimal(b) {
        Some(v) => if v != 0 {
            Some(v)
        } else {
            None
        },
        None => None,
    }
}

impl Snowflake {
    /// Reads a snowflake from the bytes of its decimal text.
    pub fn parse_bytes(b: &[u8]) -> (r: Result<Snowflake, ParseSnowflakeError>)
        ensures
            match parse_snowflake(b@) {
                Some(v) => r matches Ok(s) && s@ == v,
                None => r is Err,
            },
    {
        match parse_u64(b) {
            Some(v) => match Snowflake::new(v) {
                Some(s) => Ok(s),
                None => Err(ParseSnowflakeError),
            },
            None => Err(ParseSnowflakeError),
        }
    }

    /// Reads a snowflake from its decimal text.
    pub fn from_str(s: &str) -> (r: Result<Snowflake, ParseSnowflakeError>)
        ensures
            match parse_snowflake(s.spec_bytes()) {
                Some(v) => r matches Ok(f) && f@ == v,
                None => r is Err,
            },
    {
        Snowflake::parse_bytes(s.as_bytes())
    }

    /// The decimal text of the snowflake.
    pub fn to_string(&self) -> (r: String)
        ensures
            r@ == ascii_text(digits_bytes(self@ as nat, 10)),
    {
        let d = digits(self.to_u64() as u128, 10);
        ascii_string(d.as_slice())
    }
}

/// The decimal text of a snowflake reads back as that snowflake.
pub proof fn law_snowflake_text_roundtrip(s: Snowflake)
    requires
        s@ != 0,
    ensures
        parse_snowflake(digits_bytes(s@ as nat, 10)) == Some(s@),
{
    crate::util::digits::lemma_digits_roundtrip(s@ as nat);
}

} // verus!
