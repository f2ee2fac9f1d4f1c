//! Emotes: Unicode emoji and custom emotes.

use vstd::prelude::*;

use super::sf::Snowflake;

verus! {

/// Flags of a custom emote.
#[derive(Debug, Clone, Copy, PartialEq, Eq, Structural, Hash)]
pub struct EmoteFlags {
    bits: i16,
}

impl View for EmoteFlags {
    type V = i16;

    closed spec fn view(&self) -> i16 {
        self.bits
    }
}

/// Union of the bits of every named flag of [`EmoteFlags`].
pub open spec fn emote_all_bits() -> i16 {
    0x7i16
}

#[allow(non_snake_case)]
impl EmoteFlags {
    pub fn ANIMATED() -> (r: EmoteFlags)
        ensures
            r@ == 0x1i16,
    {
        EmoteFlags { bits: 0x1i16 }
    }

    pub fn STICKER() -> (r: EmoteFlags)
        ensures
            r@ == 0x2i16,
    {
        EmoteFlags { bits: 0x2i16 }
    }

    pub fn NSFW() -> (r: EmoteFlags)
        ensures
            r@ == 0x4i16,
    {
        EmoteFlags { bits: 0x4i16 }
    }

    /// The raw bits.
    pub fn bits(&self) -> (r: i16)
        ensures
            r == self@,
    {
        self.bits
    }

    /// No flags.
    pub fn empty() -> (r: EmoteFlags)
        ensures
            r@ == 0,
    {
        EmoteFlags { bits: 0 }
    }

    /// Every named flag.
    pub fn all() -> (r: EmoteFlags)
        ensures
            r@ == emote_all_bits(),
    {
        EmoteFlags { bits: 0x7i16 }
    }

    /// Keeps the named flags of `bits` and drops the other bits.
    pub fn from_bits_truncate(bits: i16) -> (r: EmoteFlags)
        ensures
            r@ == bits & emote_all_bits(),
    {
        EmoteFlags { bits: bits & 0x7i16 }
    }

    /// Keeps `bits` exactly as given.
    pub fn from_bits_retain(bits: i16) -> (r: EmoteFlags)
        ensures
            r@ == bits,
    {
        EmoteFlags { bits }
    }

    /// `Some` exactly when every bit of `bits` names a flag.
    pub fn from_bits(bits: i16) -> (r: Option<EmoteFlags>)
        ensures
            r is Some <==> bits & !emote_all_bits() == 0,
            r matches Some(f) ==> f@ == bits,
    {
        if bits & !0x7i16 == 0 {
            Some(EmoteFlags { bits })
        } else {
            None
        }
    }

    pub fn is_empty(&self) -> (r: bool)
        ensures
            r == (self@ == 0),
    {
        self.bits == 0
    }

    /// Whether every flag of `other` is set in `self`.
    pub fn contains(&self, other: EmoteFlags) -> (r: bool)
        ensures
            r == (self@ & other@ == other@),
    {
        self.bits & other.bits == other.bits
    }

    pub fn union(self, other: EmoteFlags) -> (r: EmoteFlags)
        ensures
            r@ == self@ | other@,
    {
        EmoteFlags { bits: self.bits | other.bits }
    }

    pub fn intersection(self, other: EmoteFlags) -> (r: EmoteFlags)
        ensures
            r@ == self@ & other@,
    {
        EmoteFlags { bits: self.bits & other.bits }
    }

    /// The flags of `self` that are not in `other`.
    pub fn difference(self, other: EmoteFlags) -> (r: EmoteFlags)
        ensures
            r@ == self@ & !other@,
    {
        EmoteFlags { bits: self.bits & !other.bits }
    }

    /// The named flags that are not in `self`.
    pub fn complement(self) -> (r: EmoteFlags)
        ensures
            r@ == !self@ & emote_all_bits(),
    {
        EmoteFlags { bits: !self.bits & 0x7i16 }
    }
}

/// A custom emote of a party.
#[derive(Debug, Clone)]
pub struct CustomEmote {
    pub id: Snowflake,
    pub party_id: Snowflake,
    pub asset: Snowflake,
    pub name: smol_str::SmolStr,
    pub flags: EmoteFlags,
    /// The aspect ratio, held by the bits of its IEEE-754 `f32` encoding.
    pub aspect_ratio: u32,
}

/// An emoji or a custom emote.
#[derive(Debug, Clone)]
pub enum Emote {
    Emoji { emoji: smol_str::SmolStr },
    Custom(CustomEmote),
}

} // verus!
