//! Gateway protocol: intents, commands, events and the messages exchanged
//! between server and client.

use vstd::prelude::*;

pub mod commands;
pub mod events;
pub mod message;

verus! {

/// Gateway intents: the kinds of events a session subscribes to.
#[derive(Debug, Clone, Copy, PartialEq, Eq, Structural, Hash)]
pub struct Intent {
    bits: u32,
}

impl View for Intent {
    type V = u32;

    closed spec fn view(&self) -> u32 {
        self.bits
    }
}

/// Union of the bits of every named flag of [`Intent`].
pub open spec fn intent_all_bits() -> u32 {
    0xffffu32
}

#[allow(non_snake_case)]
impl Intent {
    pub fn PARTIES() -> (r: Intent)
        ensures
            r@ == 0x1u32,
    {
        Intent { bits: 0x1u32 }
    }

    pub fn PARTY_MEMBERS() -> (r: Intent)
        ensures
            r@ == 0x2u32,
    {
        Intent { bits: 0x2u32 }
    }

    pub fn PARTY_BANS() -> (r: Intent)
        ensures
            r@ == 0x4u32,
    {
        Intent { bits: 0x4u32 }
    }

    pub fn PARTY_EMOTES() -> (r: Intent)
        ensures
            r@ == 0x8u32,
    {
        Intent { bits: 0x8u32 }
    }

    pub fn PARTY_INTEGRATIONS() -> (r: Intent)
        ensures
            r@ == 0x10u32,
    {
        Intent { bits: 0x10u32 }
    }

    pub fn PARTY_WEBHOOKS() -> (r: Intent)
        ensures
            r@ == 0x20u32,
    {
        Intent { bits: 0x20u32 }
    }

    pub fn PARTY_INVITES() -> (r: Intent)
        ensures
            r@ == 0x40u32,
    {
        Intent { bits: 0x40u32 }
    }

    pub fn VOICE_STATUS() -> (r: Intent)
        ensures
            r@ == 0x80u32,
    {
        Intent { bits: 0x80u32 }
    }

    pub fn PRESENCE() -> (r: Intent)
        ensures
            r@ == 0x100u32,
    {
        Intent { bits: 0x100u32 }
    }

    pub fn MESSAGES() -> (r: Intent)
        ensures
            r@ == 0x200u32,
    {
        Intent { bits: 0x200u32 }
    }

    pub fn MESSAGE_REACTIONS() -> (r: Intent)
        ensures
            r@ == 0x400u32,
    {
        Intent { bits: 0x400u32 }
    }

    pub fn MESSAGE_TYPING() -> (r: Intent)
        ensures
            r@ == 0x800u32,
    {
        Intent { bits: 0x800u32 }
    }

    pub fn DIRECT_MESSAGES() -> (r: Intent)
        ensures
            r@ == 0x1000u32,
    {
        Intent { bits: 0x1000u32 }
    }

    pub fn DIRECT_MESSAGE_REACTIONS() -> (r: Intent)
        ensures
            r@ == 0x2000u32,
    {
        Intent { bits: 0x2000u32 }
    }

    pub fn DIRECT_MESSAGE_TYPING() -> (r: Intent)
        ensures
            r@ == 0x4000u32,
    {
        Intent { bits: 0x4000u32 }
    }

    pub fn PROFILE_UPDATES() -> (r: Intent)
        ensures
            r@ == 0x8000u32,
    {
        Intent { bits: 0x8000u32 }
    }

    /// The raw bits.
    pub fn bits(&self) -> (r: u32)
        ensures
            r == self@,
    {
        self.bits
    }

    /// No flags.
    pub fn empty() -> (r: Intent)
        ensures
            r@ == 0,
    {
        Intent { bits: 0 }
    }

    /// Every named flag.
    pub fn all() -> (r: Intent)
        ensures
            r@ == intent_all_bits(),
    {
        Intent { bits: 0xffffu32 }
    }

    /// Keeps the named flags of `bits` and drops the other bits.
    pub fn from_bits_truncate(bits: u32) -> (r: Intent)
        ensures
            r@ == bits & intent_all_bits(),
    {
        Intent { bits: bits & 0xffffu32 }
    }

    /// Keeps `bits` exactly as given.
    pub fn from_bits_retain(bits: u32) -> (r: Intent)
        ensures
            r@ == bits,
    {
        Intent { bits }
    }

    /// `Some` exactly when every bit of `bits` names a flag.
    pub fn from_bits(bits: u32) -> (r: Option<Intent>)
        ensures
            r is Some <==> bits & !intent_all_bits() == 0,
            r matches Some(f) ==> f@ == bits,
    {
        if bits & !0xffffu32 == 0 {
            Some(Intent { bits })
        } else {
            None
        }
    }

    pub fn is_empty(&self) -> (r: bool)
        ensures
            r == (self@ == 0),
    {
        self.bits == 0
    }

    /// Whether every flag of `other` is set in `self`.
    pub fn contains(&self, other: Intent) -> (r: bool)
        ensures
            r == (self@ & other@ == other@),
    {
        self.bits & other.bits == other.bits
    }

    pub fn union(self, other: Intent) -> (r: Intent)
        ensures
            r@ == self@ | other@,
    {
        Intent { bits: self.bits | other.bits }
    }

    pub fn intersection(self, other: Intent) -> (r: Intent)
        ensures
            r@ == self@ & other@,
    {
        Intent { bits: self.bits & other.bits }
    }

    /// The flags of `self` that are not in `other`.
    pub fn difference(self, other: Intent) -> (r: Intent)
        ensures
            r@ == self@ & !other@,
    {
        Intent { bits: self.bits & !other.bits }
    }

    /// The named flags that are not in `self`.
    pub fn complement(self) -> (r: Intent)
        ensures
            r@ == !self@ & intent_all_bits(),
    {
        Intent { bits: !self.bits & 0xffffu32 }
    }
}

} // verus!
