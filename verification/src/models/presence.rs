//! Presence of users: online status and activity.

use vstd::prelude::*;

verus! {

/// Presence of a user; larger values take precedence.
#[derive(Debug, Clone, Copy, PartialEq, Eq, Structural, Hash)]
pub struct UserPresenceFlags {
    bits: i16,
}

impl View for UserPresenceFlags {
    type V = i16;

    closed spec fn view(&self) -> i16 {
        self.bits
    }
}

/// Union of the bits of every named flag of [`UserPresenceFlags`].
pub open spec fn presence_all_bits() -> i16 {
    0x1fi16
}

#[allow(non_snake_case)]
impl UserPresenceFlags {
    pub fn OFFLINE() -> (r: UserPresenceFlags)
        ensures
            r@ == 0x0i16,
    {
        UserPresenceFlags { bits: 0x0i16 }
    }

    pub fn AWAY() -> (r: UserPresenceFlags)
        ensures
            r@ == 0x1i16,
    {
        UserPresenceFlags { bits: 0x1i16 }
    }

    pub fn MOBILE() -> (r: UserPresenceFlags)
        ensures
            r@ == 0x2i16,
    {
        UserPresenceFlags { bits: 0x2i16 }
    }

    /// ONLINE+MOBILE will be larger than ONLINE only
    pub fn ONLINE() -> (r: UserPresenceFlags)
        ensures
            r@ == 0x4i16,
    {
        UserPresenceFlags { bits: 0x4i16 }
    }

    pub fn BUSY() -> (r: UserPresenceFlags)
        ensures
            r@ == 0x8i16,
    {
        UserPresenceFlags { bits: 0x8i16 }
    }

    pub fn INVISIBLE() -> (r: UserPresenceFlags)
        ensures
            r@ == 0x10i16,
    {
        UserPresenceFlags { bits: 0x10i16 }
    }

    /// The raw bits.
    pub fn bits(&self) -> (r: i16)
        ensures
            r == self@,
    {
        self.bits
    }

    /// No flags.
    pub fn empty() -> (r: UserPresenceFlags)
        ensures
            r@ == 0,
    {
        UserPresenceFlags { bits: 0 }
    }

    /// Every named flag.
    pub fn all() -> (r: UserPresenceFlags)
        ensures
            r@ == presence_all_bits(),
    {
        UserPresenceFlags { bits: 0x1fi16 }
    }

    /// Keeps the named flags of `bits` and drops the other bits.
    pub fn from_bits_truncate(bits: i16) -> (r: UserPresenceFlags)
        ensures
            r@ == bits & presence_all_bits(),
    {
        UserPresenceFlags { bits: bits & 0x1fi16 }
    }

    /// Keeps `bits` exactly as given.
    pub fn from_bits_retain(bits: i16) -> (r: UserPresenceFlags)
        ensures
            r@ == bits,
    {
        UserPresenceFlags { bits }
    }

    /// `Some` exactly when every bit of `bits` names a flag.
    pub fn from_bits(bits: i16) -> (r: Option<UserPresenceFlags>)
        ensures
            r is Some <==> bits & !presence_all_bits() == 0,
            r matches Some(f) ==> f@ == bits,
    {
        if bits & !0x1fi16 == 0 {
            Some(UserPresenceFlags { bits })
        } else {
            None
        }
    }

    pub fn is_empty(&self) -> (r: bool)
        ensures
            r == (self@ == 0),
    {
        self.bits == 0
    }

    /// Whether every flag of `other` is set in `self`.
    pub fn contains(&self, other: UserPresenceFlags) -> (r: bool)
        ensures
            r == (self@ & other@ == other@),
    {
        self.bits & other.bits == other.bits
    }

    pub fn union(self, other: UserPresenceFlags) -> (r: UserPresenceFlags)
        ensures
            r@ == self@ | other@,
    {
        UserPresenceFlags { bits: self.bits | other.bits }
    }

    pub fn intersection(self, other: UserPresenceFlags) -> (r: UserPresenceFlags)
        ensures
            r@ == self@ & other@,
    {
        UserPresenceFlags { bits: self.bits & other.bits }
    }

    /// The flags of `self` that are not in `other`.
    pub fn difference(self, other: UserPresenceFlags) -> (r: UserPresenceFlags)
        ensures
            r@ == self@ & !other@,
    {
        UserPresenceFlags { bits: self.bits & !other.bits }
    }

    /// The named flags that are not in `self`.
    pub fn complement(self) -> (r: UserPresenceFlags)
        ensures
            r@ == !self@ & presence_all_bits(),
    {
        UserPresenceFlags { bits: !self.bits & 0x1fi16 }
    }
}

impl UserPresenceFlags {
    /// The named flags of `bits`, without `INVISIBLE`, which is never shown to others.
    pub fn from_bits_truncate_public(bits: i16) -> (r: UserPresenceFlags)
        ensures
            r@ == (bits & presence_all_bits()) & !16i16,
    {
        UserPresenceFlags::from_bits_truncate(bits).difference(UserPresenceFlags::INVISIBLE())
    }
}

/// An activity of a user.
#[derive(Debug, Clone, Copy)]
pub struct Activity {}

/// Any kind of activity.
#[derive(Debug, Clone, Copy)]
pub enum AnyActivity {
    Typed(Activity),
}

/// Presence of a user.
#[derive(Debug, Clone)]
pub struct UserPresence {
    pub flags: UserPresenceFlags,
    /// approximately how many seconds ago they were active
    /// not present in all events or if user has disabled it
    pub last_active: Option<u64>,
    /// Updated-At timestamp as ISO-8061
    pub updated_at: Option<iso8601_timestamp::Timestamp>,
    pub activity: Option<AnyActivity>,
}

impl UserPresence {
    /// A presence with the given flags, and no activity or times.
    pub fn new(flags: UserPresenceFlags) -> (r: UserPresence)
        ensures
            r.flags == flags,
            r.activity is None,
            r.last_active is None,
            r.updated_at is None,
    {
        UserPresence { flags, activity: None, last_active: None, updated_at: None }
    }

    /// The presence with its activity replaced.
    pub fn with_activty(self, activity: Option<AnyActivity>) -> (r: UserPresence)
        ensures
            r.flags == self.flags,
            r.activity == activity,
            r.last_active == self.last_active,
            r.updated_at == self.updated_at,
    {
        let mut this = self;
        this.activity = activity;
        this
    }
}

} // verus!
