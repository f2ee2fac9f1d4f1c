//! Threads of messages.

use vstd::prelude::*;

use super::message::Message;
use super::sf::ThreadId;

verus! {

/// Flags of a thread.
#[derive(Debug, Clone, Copy, PartialEq, Eq, Structural, Hash)]
pub struct ThreadFlags {
    bits: i16,
}

impl View for ThreadFlags {
    type V = i16;

    closed spec fn view(&self) -> i16 {
        self.bits
    }
}

/// Union of the bits of every named flag of [`ThreadFlags`].
pub open spec fn thread_all_bits() -> i16 {
    0x1i16
}

#[allow(non_snake_case)]
impl ThreadFlags {
    /// Forum-style thread
    pub fn FORUM() -> (r: ThreadFlags)
        ensures
            r@ == 0x1i16,
    {
        ThreadFlags { bits: 0x1i16 }
    }

    /// The raw bits.
    pub fn bits(&self) -> (r: i16)
        ensures
            r == self@,
    {
        self.bits
    }

    /// No flags.
    pub fn empty() -> (r: ThreadFlags)
        ensures
            r@ == 0,
    {
        ThreadFlags { bits: 0 }
    }

    /// Every named flag.
    pub fn all() -> (r: ThreadFlags)
        ensures
            r@ == thread_all_bits(),
    {
        ThreadFlags { bits: 0x1i16 }
    }

    /// Keeps the named flags of `bits` and drops the other bits.
    pub fn from_bits_truncate(bits: i16) -> (r: ThreadFlags)
        ensures
            r@ == bits & thread_all_bits(),
    {
        ThreadFlags { bits: bits & 0x1i16 }
    }

    /// Keeps `bits` exactly as given.
    pub fn from_bits_retain(bits: i16) -> (r: ThreadFlags)
        ensures
            r@ == bits,
    {
        ThreadFlags { bits }
    }

    /// `Some` exactly when every bit of `bits` names a flag.
    pub fn from_bits(bits: i16) -> (r: Option<ThreadFlags>)
        ensures
            r is Some <==> bits & !thread_all_bits() == 0,
            r matches Some(f) ==> f@ == bits,
    {
        if bits & !0x1i16 == 0 {
            Some(ThreadFlags { bits })
        } else {
            None
        }
    }

    pub fn is_empty(&self) -> (r: bool)
        ensures
            r == (self@ == 0),
    {
        self.bits == 0
    }

    /// Whether every flag of `other` is set in `self`.
    pub fn contains(&self, other: ThreadFlags) -> (r: bool)
        ensures
            r == (self@ & other@ == other@),
    {
        self.bits & other.bits == other.bits
    }

    pub fn union(self, other: ThreadFlags) -> (r: ThreadFlags)
        ensures
            r@ == self@ | other@,
    {
        ThreadFlags { bits: self.bits | other.bits }
    }

    pub fn intersection(self, other: ThreadFlags) -> (r: ThreadFlags)
        ensures
            r@ == self@ & other@,
    {
        ThreadFlags { bits: self.bits & other.bits }
    }

    /// The flags of `self` that are not in `other`.
    pub fn difference(self, other: ThreadFlags) -> (r: ThreadFlags)
        ensures
            r@ == self@ & !other@,
    {
        ThreadFlags { bits: self.bits & !other.bits }
    }

    /// The named flags that are not in `self`.
    pub fn complement(self) -> (r: ThreadFlags)
        ensures
            r@ == !self@ & thread_all_bits(),
    {
        ThreadFlags { bits: !self.bits & 0x1i16 }
    }
}

/// A thread started from a message.
#[derive(Debug, Clone)]
pub struct Thread {
    pub id: ThreadId,
    pub parent: Message,
    pub flags: ThreadFlags,
}

} // verus!
