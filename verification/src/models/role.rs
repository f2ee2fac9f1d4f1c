//! Roles of a party.

use vstd::prelude::*;

use super::permission::Permissions;
use super::sf::{PartyId, RoleId};
use super::EncryptedSnowflake;

verus! {

/// Flags of a role.
#[derive(Debug, Clone, Copy, PartialEq, Eq, Structural, Hash)]
pub struct RoleFlags {
    bits: i16,
}

impl View for RoleFlags {
    type V = i16;

    closed spec fn view(&self) -> i16 {
        self.bits
    }
}

/// Union of the bits of every named flag of [`RoleFlags`].
pub open spec fn role_all_bits() -> i16 {
    0x3i16
}

#[allow(non_snake_case)]
impl RoleFlags {
    pub fn HOIST() -> (r: RoleFlags)
        ensures
            r@ == 0x1i16,
    {
        RoleFlags { bits: 0x1i16 }
    }

    pub fn MENTIONABLE() -> (r: RoleFlags)
        ensures
            r@ == 0x2i16,
    {
        RoleFlags { bits: 0x2i16 }
    }

    /// The raw bits.
    pub fn bits(&self) -> (r: i16)
        ensures
            r == self@,
    {
        self.bits
    }

    /// No flags.
    pub fn empty() -> (r: RoleFlags)
        ensures
            r@ == 0,
    {
        RoleFlags { bits: 0 }
    }

    /// Every named flag.
    pub fn all() -> (r: RoleFlags)
        ensures
            r@ == role_all_bits(),
    {
        RoleFlags { bits: 0x3i16 }
    }

    /// Keeps the named flags of `bits` and drops the other bits.
    pub fn from_bits_truncate(bits: i16) -> (r: RoleFlags)
        ensures
            r@ == bits & role_all_bits(),
    {
        RoleFlags { bits: bits & 0x3i16 }
    }

    /// Keeps `bits` exactly as given.
    pub fn from_bits_retain(bits: i16) -> (r: RoleFlags)
        ensures
            r@ == bits,
    {
        RoleFlags { bits }
    }

    /// `Some` exactly when every bit of `bits` names a flag.
    pub fn from_bits(bits: i16) -> (r: Option<RoleFlags>)
        ensures
            r is Some <==> bits & !role_all_bits() == 0,
            r matches Some(f) ==> f@ == bits,
    {
        if bits & !0x3i16 == 0 {
            Some(RoleFlags { bits })
        } else {
            None
        }
    }

    pub fn is_empty(&self) -> (r: bool)
        ensures
            r == (self@ == 0),
    {
        self.bits == 0
    }

    /// Whether every flag of `other` is set in `self`.
    pub fn contains(&self, other: RoleFlags) -> (r: bool)
        ensures
            r == (self@ & other@ == other@),
    {
        self.bits & other.bits == other.bits
    }

    pub fn union(self, other: RoleFlags) -> (r: RoleFlags)
        ensures
            r@ == self@ | other@,
    {
        RoleFlags { bits: self.bits | other.bits }
    }

    pub fn intersection(self, other: RoleFlags) -> (r: RoleFlags)
        ensures
            r@ == self@ & other@,
    {
        RoleFlags { bits: self.bits & other.bits }
    }

    /// The flags of `self` that are not in `other`.
    pub fn difference(self, other: RoleFlags) -> (r: RoleFlags)
        ensures
            r@ == self@ & !other@,
    {
        RoleFlags { bits: self.bits & !other.bits }
    }

    /// The named flags that are not in `self`.
    pub fn complement(self) -> (r: RoleFlags)
        ensures
            r@ == !self@ & role_all_bits(),
    {
        RoleFlags { bits: !self.bits & 0x3i16 }
    }
}

/// A role of a party.
#[derive(Debug, Clone)]
pub struct Role {
    pub id: RoleId,
    pub party_id: PartyId,
    pub avatar: Option<EncryptedSnowflake>,
    pub name: smol_str::SmolStr,
    pub desc: Option<smol_str::SmolStr>,
    pub permissions: Permissions,
    /// can be intentionally null
    pub color: Option<u32>,
    pub position: i16,
    pub flags: RoleFlags,
}

impl Role {
    /// Whether members may mention the role.
    pub fn is_mentionable(&self) -> (r: bool)
        ensures
            r == (self.flags@ & 2i16 == 2i16),
    {
        self.flags.contains(RoleFlags::MENTIONABLE())
    }

    /// Whether the role has the `ADMINISTRATOR` permission.
    pub fn is_admin(&self) -> (r: bool)
        ensures
            r == (self.permissions@ & 1u128 == 1u128),
    {
        self.permissions.contains(Permissions::ADMINISTRATOR())
    }
}

} // verus!
