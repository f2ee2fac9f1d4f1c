//! Parties (servers), their members and pin folders.

use vstd::prelude::*;

use super::emote::Emote;
use super::nullable::Nullable;
use super::role::Role;
use super::sf::{FolderId, PartyId, RoleId, RoomId, Snowflake, UserId};
use super::user::User;
use super::user_prefs::Locale;
use super::EncryptedSnowflake;
use crate::util::thin_str::ThinString;

verus! {

/// Flags of a party.
#[derive(Debug, Clone, Copy, PartialEq, Eq, Structural, Hash)]
pub struct PartyFlags {
    bits: i32,
}

impl View for PartyFlags {
    type V = i32;

    closed spec fn view(&self) -> i32 {
        self.bits
    }
}

/// Union of the bits of every named flag of [`PartyFlags`].
pub open spec fn party_all_bits() -> i32 {
    (-67108737i32)
}

#[allow(non_snake_case)]
impl PartyFlags {
    /// Must have a verified email address
    pub fn EMAIL() -> (r: PartyFlags)
        ensures
            r@ == 0x1i32,
    {
        PartyFlags { bits: 0x1i32 }
    }

    /// Must have a verified phone number
    pub fn PHONE() -> (r: PartyFlags)
        ensures
            r@ == 0x2i32,
    {
        PartyFlags { bits: 0x2i32 }
    }

    /// Must be a Lantern user for longer than 5 minutes
    pub fn NEW_USER() -> (r: PartyFlags)
        ensures
            r@ == 0x4i32,
    {
        PartyFlags { bits: 0x4i32 }
    }

    /// Must be a member of the server for longer than 10 minutes
    pub fn NEW_MEMBER() -> (r: PartyFlags)
        ensures
            r@ == 0x8i32,
    {
        PartyFlags { bits: 0x8i32 }
    }

    /// Must have MFA enabled
    pub fn MFA_ENABLED() -> (r: PartyFlags)
        ensures
            r@ == 0x10i32,
    {
        PartyFlags { bits: 0x10i32 }
    }

    /// Party is marked as "adult"
    pub fn ADULT() -> (r: PartyFlags)
        ensures
            r@ == 0x20i32,
    {
        PartyFlags { bits: 0x20i32 }
    }

    /// Another way to refer to a direct-message is a "closed" party.
    pub fn CLOSED() -> (r: PartyFlags)
        ensures
            r@ == 0x40i32,
    {
        PartyFlags { bits: 0x40i32 }
    }

    /// Top 6 bits are a language code
    pub fn LANGUAGE() -> (r: PartyFlags)
        ensures
            r@ == (-67108864i32),
    {
        PartyFlags { bits: (-67108864i32) }
    }

    /// Combination of all security flags
    pub fn SECURITY() -> (r: PartyFlags)
        ensures
            r@ == 0x1fi32,
    {
        PartyFlags { bits: 0x1fi32 }
    }

    /// The raw bits.
    pub fn bits(&self) -> (r: i32)
        ensures
            r == self@,
    {
        self.bits
    }

    /// No flags.
    pub fn empty() -> (r: PartyFlags)
        ensures
            r@ == 0,
    {
        PartyFlags { bits: 0 }
    }

    /// Every named flag.
    pub fn all() -> (r: PartyFlags)
        ensures
            r@ == party_all_bits(),
    {
        PartyFlags { bits: (-67108737i32) }
    }

    /// Keeps the named flags of `bits` and drops the other bits.
    pub fn from_bits_truncate(bits: i32) -> (r: PartyFlags)
        ensures
            r@ == bits & party_all_bits(),
    {
        PartyFlags { bits: bits & (-67108737i32) }
    }

    /// Keeps `bits` exactly as given.
    pub fn from_bits_retain(bits: i32) -> (r: PartyFlags)
        ensures
            r@ == bits,
    {
        PartyFlags { bits }
    }

    /// `Some` exactly when every bit of `bits` names a flag.
    pub fn from_bits(bits: i32) -> (r: Option<PartyFlags>)
        ensures
            r is Some <==> bits & !party_all_bits() == 0,
            r matches Some(f) ==> f@ == bits,
    {
        if bits & !(-67108737i32) == 0 {
            Some(PartyFlags { bits })
        } else {
            None
        }
    }

    pub fn is_empty(&self) -> (r: bool)
        ensures
            r == (self@ == 0),
    {
        self.bits == 0
    }

    /// Whether every flag of `other` is set in `self`.
    pub fn contains(&self, other: PartyFlags) -> (r: bool)
        ensures
            r == (self@ & other@ == other@),
    {
        self.bits & other.bits == other.bits
    }

    pub fn union(self, other: PartyFlags) -> (r: PartyFlags)
        ensures
            r@ == self@ | other@,
    {
        PartyFlags { bits: self.bits | other.bits }
    }

    pub fn intersection(self, other: PartyFlags) -> (r: PartyFlags)
        ensures
            r@ == self@ & other@,
    {
        PartyFlags { bits: self.bits & other.bits }
    }

    /// The flags of `self` that are not in `other`.
    pub fn difference(self, other: PartyFlags) -> (r: PartyFlags)
        ensures
            r@ == self@ & !other@,
    {
        PartyFlags { bits: self.bits & !other.bits }
    }

    /// The named flags that are not in `self`.
    pub fn complement(self) -> (r: PartyFlags)
        ensures
            r@ == !self@ & party_all_bits(),
    {
        PartyFlags { bits: !self.bits & (-67108737i32) }
    }
}

/// Flags of a party member.
#[derive(Debug, Clone, Copy, PartialEq, Eq, Structural, Hash)]
pub struct PartyMemberFlags {
    bits: i16,
}

impl View for PartyMemberFlags {
    type V = i16;

    closed spec fn view(&self) -> i16 {
        self.bits
    }
}

/// Union of the bits of every named flag of [`PartyMemberFlags`].
pub open spec fn party_member_all_bits() -> i16 {
    0x1i16
}

#[allow(non_snake_case)]
impl PartyMemberFlags {
    pub fn BANNED() -> (r: PartyMemberFlags)
        ensures
            r@ == 0x1i16,
    {
        PartyMemberFlags { bits: 0x1i16 }
    }

    /// The raw bits.
    pub fn bits(&self) -> (r: i16)
        ensures
            r == self@,
    {
        self.bits
    }

    /// No flags.
    pub fn empty() -> (r: PartyMemberFlags)
        ensures
            r@ == 0,
    {
        PartyMemberFlags { bits: 0 }
    }

    /// Every named flag.
    pub fn all() -> (r: PartyMemberFlags)
        ensures
            r@ == party_member_all_bits(),
    {
        PartyMemberFlags { bits: 0x1i16 }
    }

    /// Keeps the named flags of `bits` and drops the other bits.
    pub fn from_bits_truncate(bits: i16) -> (r: PartyMemberFlags)
        ensures
            r@ == bits & party_member_all_bits(),
    {
        PartyMemberFlags { bits: bits & 0x1i16 }
    }

    /// Keeps `bits` exactly as given.
    pub fn from_bits_retain(bits: i16) -> (r: PartyMemberFlags)
        ensures
            r@ == bits,
    {
        PartyMemberFlags { bits }
    }

    /// `Some` exactly when every bit of `bits` names a flag.
    pub fn from_bits(bits: i16) -> (r: Option<PartyMemberFlags>)
        ensures
            r is Some <==> bits & !party_member_all_bits() == 0,
            r matches Some(f) ==> f@ == bits,
    {
        if bits & !0x1i16 == 0 {
            Some(PartyMemberFlags { bits })
        } else {
            None
        }
    }

    pub fn is_empty(&self) -> (r: bool)
        ensures
            r == (self@ == 0),
    {
        self.bits == 0
    }

    /// Whether every flag of `other` is set in `self`.
    pub fn contains(&self, other: PartyMemberFlags) -> (r: bool)
        ensures
            r == (self@ & other@ == other@),
    {
        self.bits & other.bits == other.bits
    }

    pub fn union(self, other: PartyMemberFlags) -> (r: PartyMemberFlags)
        ensures
            r@ == self@ | other@,
    {
        PartyMemberFlags { bits: self.bits | other.bits }
    }

    pub fn intersection(self, other: PartyMemberFlags) -> (r: PartyMemberFlags)
        ensures
            r@ == self@ & other@,
    {
        PartyMemberFlags { bits: self.bits & other.bits }
    }

    /// The flags of `self` that are not in `other`.
    pub fn difference(self, other: PartyMemberFlags) -> (r: PartyMemberFlags)
        ensures
            r@ == self@ & !other@,
    {
        PartyMemberFlags { bits: self.bits & !other.bits }
    }

    /// The named flags that are not in `self`.
    pub fn complement(self) -> (r: PartyMemberFlags)
        ensures
            r@ == !self@ & party_member_all_bits(),
    {
        PartyMemberFlags { bits: !self.bits & 0x1i16 }
    }
}

/// Flags of a pin folder.
#[derive(Debug, Clone, Copy, PartialEq, Eq, Structural, Hash)]
pub struct PinFolderFlags {
    bits: i32,
}

impl View for PinFolderFlags {
    type V = i32;

    closed spec fn view(&self) -> i32 {
        self.bits
    }
}

/// Union of the bits of every named flag of [`PinFolderFlags`].
pub open spec fn pin_folder_all_bits() -> i32 {
    0xffffffi32
}

#[allow(non_snake_case)]
impl PinFolderFlags {
    /// The color of the folder
    pub fn COLOR() -> (r: PinFolderFlags)
        ensures
            r@ == 0xffffffi32,
    {
        PinFolderFlags { bits: 0xffffffi32 }
    }

    /// The raw bits.
    pub fn bits(&self) -> (r: i32)
        ensures
            r == self@,
    {
        self.bits
    }

    /// No flags.
    pub fn empty() -> (r: PinFolderFlags)
        ensures
            r@ == 0,
    {
        PinFolderFlags { bits: 0 }
    }

    /// Every named flag.
    pub fn all() -> (r: PinFolderFlags)
        ensures
            r@ == pin_folder_all_bits(),
    {
        PinFolderFlags { bits: 0xffffffi32 }
    }

    /// Keeps the named flags of `bits` and drops the other bits.
    pub fn from_bits_truncate(bits: i32) -> (r: PinFolderFlags)
        ensures
            r@ == bits & pin_folder_all_bits(),
    {
        PinFolderFlags { bits: bits & 0xffffffi32 }
    }

    /// Keeps `bits` exactly as given.
    pub fn from_bits_retain(bits: i32) -> (r: PinFolderFlags)
        ensures
            r@ == bits,
    {
        PinFolderFlags { bits }
    }

    /// `Some` exactly when every bit of `bits` names a flag.
    pub fn from_bits(bits: i32) -> (r: Option<PinFolderFlags>)
        ensures
            r is Some <==> bits & !pin_folder_all_bits() == 0,
            r matches Some(f) ==> f@ == bits,
    {
        if bits & !0xffffffi32 == 0 {
            Some(PinFolderFlags { bits })
        } else {
            None
        }
    }

    pub fn is_empty(&self) -> (r: bool)
        ensures
            r == (self@ == 0),
    {
        self.bits == 0
    }

    /// Whether every flag of `other` is set in `self`.
    pub fn contains(&self, other: PinFolderFlags) -> (r: bool)
        ensures
            r == (self@ & other@ == other@),
    {
        self.bits & other.bits == other.bits
    }

    pub fn union(self, other: PinFolderFlags) -> (r: PinFolderFlags)
        ensures
            r@ == self@ | other@,
    {
        PinFolderFlags { bits: self.bits | other.bits }
    }

    pub fn intersection(self, other: PinFolderFlags) -> (r: PinFolderFlags)
        ensures
            r@ == self@ & other@,
    {
        PinFolderFlags { bits: self.bits & other.bits }
    }

    /// The flags of `self` that are not in `other`.
    pub fn difference(self, other: PinFolderFlags) -> (r: PinFolderFlags)
        ensures
            r@ == self@ & !other@,
    {
        PinFolderFlags { bits: self.bits & !other.bits }
    }

    /// The named flags that are not in `self`.
    pub fn complement(self) -> (r: PinFolderFlags)
        ensures
            r@ == !self@ & pin_folder_all_bits(),
    {
        PinFolderFlags { bits: !self.bits & 0xffffffi32 }
    }
}

/// Flags of the party preferences.
#[derive(Debug, Clone, Copy, PartialEq, Eq, Structural, Hash)]
pub struct PartyPrefsFlags {
    bits: i32,
}

impl View for PartyPrefsFlags {
    type V = i32;

    closed spec fn view(&self) -> i32 {
        self.bits
    }
}

/// Union of the bits of every named flag of [`PartyPrefsFlags`].
pub open spec fn party_prefs_all_bits() -> i32 {
    0x0i32
}

#[allow(non_snake_case)]
impl PartyPrefsFlags {
    pub fn DEFAULT_FLAGS() -> (r: PartyPrefsFlags)
        ensures
            r@ == 0x0i32,
    {
        PartyPrefsFlags { bits: 0x0i32 }
    }

    /// The raw bits.
    pub fn bits(&self) -> (r: i32)
        ensures
            r == self@,
    {
        self.bits
    }

    /// No flags.
    pub fn empty() -> (r: PartyPrefsFlags)
        ensures
            r@ == 0,
    {
        PartyPrefsFlags { bits: 0 }
    }

    /// Every named flag.
    pub fn all() -> (r: PartyPrefsFlags)
        ensures
            r@ == party_prefs_all_bits(),
    {
        PartyPrefsFlags { bits: 0x0i32 }
    }

    /// Keeps the named flags of `bits` and drops the other bits.
    pub fn from_bits_truncate(bits: i32) -> (r: PartyPrefsFlags)
        ensures
            r@ == bits & party_prefs_all_bits(),
    {
        PartyPrefsFlags { bits: bits & 0x0i32 }
    }

    /// Keeps `bits` exactly as given.
    pub fn from_bits_retain(bits: i32) -> (r: PartyPrefsFlags)
        ensures
            r@ == bits,
    {
        PartyPrefsFlags { bits }
    }

    /// `Some` exactly when every bit of `bits` names a flag.
    pub fn from_bits(bits: i32) -> (r: Option<PartyPrefsFlags>)
        ensures
            r is Some <==> bits & !party_prefs_all_bits() == 0,
            r matches Some(f) ==> f@ == bits,
    {
        if bits & !0x0i32 == 0 {
            Some(PartyPrefsFlags { bits })
        } else {
            None
        }
    }

    pub fn is_empty(&self) -> (r: bool)
        ensures
            r == (self@ == 0),
    {
        self.bits == 0
    }

    /// Whether every flag of `other` is set in `self`.
    pub fn contains(&self, other: PartyPrefsFlags) -> (r: bool)
        ensures
            r == (self@ & other@ == other@),
    {
        self.bits & other.bits == other.bits
    }

    pub fn union(self, other: PartyPrefsFlags) -> (r: PartyPrefsFlags)
        ensures
            r@ == self@ | other@,
    {
        PartyPrefsFlags { bits: self.bits | other.bits }
    }

    pub fn intersection(self, other: PartyPrefsFlags) -> (r: PartyPrefsFlags)
        ensures
            r@ == self@ & other@,
    {
        PartyPrefsFlags { bits: self.bits & other.bits }
    }

    /// The flags of `self` that are not in `other`.
    pub fn difference(self, other: PartyPrefsFlags) -> (r: PartyPrefsFlags)
        ensures
            r@ == self@ & !other@,
    {
        PartyPrefsFlags { bits: self.bits & !other.bits }
    }

    /// The named flags that are not in `self`.
    pub fn complement(self) -> (r: PartyPrefsFlags)
        ensures
            r@ == !self@ & party_prefs_all_bits(),
    {
        PartyPrefsFlags { bits: !self.bits & 0x0i32 }
    }
}

impl Default for PartyMemberFlags {
    fn default() -> (r: PartyMemberFlags)
        ensures
            r@ == 0,
    {
        PartyMemberFlags::empty()
    }
}

impl Default for PartyPrefsFlags {
    fn default() -> (r: PartyPrefsFlags)
        ensures
            r@ == 0,
    {
        PartyPrefsFlags::DEFAULT_FLAGS()
    }
}

impl From<u64> for PartyPrefsFlags {
    fn from(value: u64) -> (r: PartyPrefsFlags)
        ensures
            r@ == (#[verifier::truncate] (value as i32)) & party_prefs_all_bits(),
    {
        PartyPrefsFlags::from_bits_truncate(#[verifier::truncate] (value as i32))
    }
}

impl vstd::std_specs::convert::FromSpecImpl<u64> for PartyPrefsFlags {
    open spec fn obeys_from_spec() -> bool {
        true
    }

    closed spec fn from_spec(v: u64) -> PartyPrefsFlags {
        PartyPrefsFlags { bits: (#[verifier::truncate] (v as i32)) & party_prefs_all_bits() }
    }
}

/// The public part of a party.
#[derive(Debug, Clone)]
pub struct PartialParty {
    pub id: PartyId,
    /// Party name
    pub name: smol_str::SmolStr,
    /// Description of the party, if publicly listed
    pub description: Option<ThinString>,
}

/// A party.
#[derive(Debug, Clone)]
pub struct Party {
    pub partial: PartialParty,
    pub flags: PartyFlags,
    pub avatar: Option<EncryptedSnowflake>,
    pub banner: Nullable<EncryptedSnowflake>,
    pub default_room: RoomId,
    /// Position of party is user's party list, will be null if not joined
    pub position: Option<i16>,
    /// Id of owner user
    pub owner: UserId,
    pub roles: thin_vec::ThinVec<Role>,
    pub emotes: thin_vec::ThinVec<Emote>,
    pub folders: thin_vec::ThinVec<PinFolder>,
}

/// A member of a party.
#[derive(Debug, Clone)]
pub struct PartyMember {
    pub user: User,
    /// Will be `None` if no longer in party
    pub joined_at: Option<iso8601_timestamp::Timestamp>,
    pub flags: PartyMemberFlags,
    /// List of Role id snowflakes, may be excluded from some queries
    pub roles: thin_vec::ThinVec<RoleId>,
}

/// The party-specific part of a member.
#[derive(Debug, Clone)]
pub struct PartialPartyMember {
    /// Will be `None` if no longer in party
    pub joined_at: Option<iso8601_timestamp::Timestamp>,
    pub flags: Option<PartyMemberFlags>,
    /// List of Role id snowflakes
    pub roles: Option<Vec<Snowflake>>,
}

/// A folder of pinned messages.
#[derive(Debug, Clone)]
pub struct PinFolder {
    pub id: FolderId,
    pub name: smol_str::SmolStr,
    pub flags: PinFolderFlags,
    pub description: Option<smol_str::SmolStr>,
}

/// Preferences of a party.
#[derive(Debug, Clone, Copy)]
pub struct PartyPreferences {
    pub l: Locale,
    pub f: PartyPrefsFlags,
}

impl core::ops::Deref for Party {
    type Target = PartialParty;

    fn deref(&self) -> (r: &PartialParty)
        ensures
            *r == self.partial,
    {
        &self.partial
    }
}

impl core::ops::Deref for PartyMember {
    type Target = User;

    fn deref(&self) -> (r: &User)
        ensures
            *r == self.user,
    {
        &self.user
    }
}

} // verus!
