//! Rooms of a party, and the kinds of room.

use vstd::prelude::*;

use super::permission::{Overwrite, Permissions};
use super::sf::{PartyId, RoomId};
use super::EncryptedSnowflake;

verus! {

/// Kind of a room; its code fits in the four low bits of the room flags.
#[derive(Debug, Clone, Copy, PartialEq, Eq, Structural, Hash)]
pub enum RoomKind {
    Text,
    DirectMessage,
    GroupMessage,
    Voice,
    UserForum,
}

/// The numeric code of a room kind.
pub open spec fn room_kind_code(k: RoomKind) -> i16 {
    match k {
        RoomKind::Text => 0,
        RoomKind::DirectMessage => 1,
        RoomKind::GroupMessage => 2,
        RoomKind::Voice => 3,
        RoomKind::UserForum => 4,
    }
}

/// The kind of room that the four low bits encode; an unknown code is a text room, since
/// all rooms derive from the text room.
pub open spec fn room_kind_of(bits: i16) -> RoomKind {
    let c = bits & 0xfi16;
    if c == 1 {
        RoomKind::DirectMessage
    } else if c == 2 {
        RoomKind::GroupMessage
    } else if c == 3 {
        RoomKind::Voice
    } else if c == 4 {
        RoomKind::UserForum
    } else {
        RoomKind::Text
    }
}

impl RoomKind {
    /// The kind of the given code, if any.
    pub fn from_i16(code: i16) -> (r: Option<RoomKind>)
        ensures
            r matches Some(k) ==> room_kind_code(k) == code,
            r is None ==> !(0 <= code <= 4),
    {
        match code {
            0 => Some(RoomKind::Text),
            1 => Some(RoomKind::DirectMessage),
            2 => Some(RoomKind::GroupMessage),
            3 => Some(RoomKind::Voice),
            4 => Some(RoomKind::UserForum),
            _ => None,
        }
    }

    /// The numeric code of the kind.
    pub fn code(self) -> (r: u8)
        ensures
            r as i16 == room_kind_code(self),
    {
        match self {
            RoomKind::Text => 0,
            RoomKind::DirectMessage => 1,
            RoomKind::GroupMessage => 2,
            RoomKind::Voice => 3,
            RoomKind::UserForum => 4,
        }
    }
}

/// Flags of a room; the low four bits hold its kind.
#[derive(Debug, Clone, Copy, PartialEq, Eq, Structural, Hash)]
pub struct RoomFlags {
    bits: i16,
}

impl View for RoomFlags {
    type V = i16;

    closed spec fn view(&self) -> i16 {
        self.bits
    }
}

/// Union of the bits of every named flag of [`RoomFlags`].
pub open spec fn room_all_bits() -> i16 {
    0x3fi16
}

#[allow(non_snake_case)]
impl RoomFlags {
    /// The first four bits are the kind of the room
    pub fn KIND() -> (r: RoomFlags)
        ensures
            r@ == 0xfi16,
    {
        RoomFlags { bits: 0xfi16 }
    }

    pub fn NSFW() -> (r: RoomFlags)
        ensures
            r@ == 0x10i16,
    {
        RoomFlags { bits: 0x10i16 }
    }

    pub fn DEFAULT() -> (r: RoomFlags)
        ensures
            r@ == 0x20i16,
    {
        RoomFlags { bits: 0x20i16 }
    }

    /// The raw bits.
    pub fn bits(&self) -> (r: i16)
        ensures
            r == self@,
    {
        self.bits
    }

    /// No flags.
    pub fn empty() -> (r: RoomFlags)
        ensures
            r@ == 0,
    {
        RoomFlags { bits: 0 }
    }

    /// Every named flag.
    pub fn all() -> (r: RoomFlags)
        ensures
            r@ == room_all_bits(),
    {
        RoomFlags { bits: 0x3fi16 }
    }

    /// Keeps the named flags of `bits` and drops the other bits.
    pub fn from_bits_truncate(bits: i16) -> (r: RoomFlags)
        ensures
            r@ == bits & room_all_bits(),
    {
        RoomFlags { bits: bits & 0x3fi16 }
    }

    /// Keeps `bits` exactly as given.
    pub fn from_bits_retain(bits: i16) -> (r: RoomFlags)
        ensures
            r@ == bits,
    {
        RoomFlags { bits }
    }

    /// `Some` exactly when every bit of `bits` names a flag.
    pub fn from_bits(bits: i16) -> (r: Option<RoomFlags>)
        ensures
            r is Some <==> bits & !room_all_bits() == 0,
            r matches Some(f) ==> f@ == bits,
    {
        if bits & !0x3fi16 == 0 {
            Some(RoomFlags { bits })
        } else {
            None
        }
    }

    pub fn is_empty(&self) -> (r: bool)
        ensures
            r == (self@ == 0),
    {
        self.bits == 0
    }

    /// Whether every flag of `other` is set in `self`.
    pub fn contains(&self, other: RoomFlags) -> (r: bool)
        ensures
            r == (self@ & other@ == other@),
    {
        self.bits & other.bits == other.bits
    }

    pub fn union(self, other: RoomFlags) -> (r: RoomFlags)
        ensures
            r@ == self@ | other@,
    {
        RoomFlags { bits: self.bits | other.bits }
    }

    pub fn intersection(self, other: RoomFlags) -> (r: RoomFlags)
        ensures
            r@ == self@ & other@,
    {
        RoomFlags { bits: self.bits & other.bits }
    }

    /// The flags of `self` that are not in `other`.
    pub fn difference(self, other: RoomFlags) -> (r: RoomFlags)
        ensures
            r@ == self@ & !other@,
    {
        RoomFlags { bits: self.bits & !other.bits }
    }

    /// The named flags that are not in `self`.
    pub fn complement(self) -> (r: RoomFlags)
        ensures
            r@ == !self@ & room_all_bits(),
    {
        RoomFlags { bits: !self.bits & 0x3fi16 }
    }
}

impl RoomFlags {
    /// The kind of the room.
    pub fn kind(self) -> (r: RoomKind)
        ensures
            r == room_kind_of(self@),
    {
        match RoomKind::from_i16(self.bits() & 0xf) {
            Some(k) => k,
            None => RoomKind::Text,
        }
    }
}

impl From<RoomKind> for RoomFlags {
    fn from(value: RoomKind) -> (r: RoomFlags)
        ensures
            r@ == room_kind_code(value),
    {
        RoomFlags::from_bits_retain(value.code() as i16)
    }
}

impl vstd::std_specs::convert::FromSpecImpl<RoomKind> for RoomFlags {
    open spec fn obeys_from_spec() -> bool {
        true
    }

    closed spec fn from_spec(v: RoomKind) -> RoomFlags {
        RoomFlags { bits: room_kind_code(v) }
    }
}

/// The flags of a room of a given kind read back as that kind.
pub proof fn law_room_kind_roundtrip(k: RoomKind)
    ensures
        room_kind_of(room_kind_code(k)) == k,
{
    let c = room_kind_code(k);
    assert(c & 0xfi16 == c) by (bit_vector)
        requires
            0 <= c <= 4,
    ;
}

/// A room of a party.
#[derive(Debug, Clone)]
pub struct Room {
    pub id: RoomId,
    pub flags: RoomFlags,
    pub party_id: PartyId,
    pub avatar: Option<EncryptedSnowflake>,
    pub name: smol_str::SmolStr,
    pub topic: Option<smol_str::SmolStr>,
    /// Sort order
    pub position: i16,
    /// Slow-mode rate limit, in seconds; never zero
    pub rate_limit_per_user: Option<u32>,
    /// Parent room ID for categories
    pub parent_id: Option<RoomId>,
    /// Permission overwrites for this room
    pub overwrites: thin_vec::ThinVec<Overwrite>,
}

/// A room with the permissions of the user in it.
#[derive(Debug, Clone)]
pub struct FullRoom {
    pub room: Room,
    pub perms: Permissions,
}

} // verus!
