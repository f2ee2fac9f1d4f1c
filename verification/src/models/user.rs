//! Users: account flags, elevation, profiles and friends.

use vstd::prelude::*;

use super::nullable::Nullable;
use super::sf::Snowflake;
use super::user_prefs::UserPreferences;

verus! {

/// Flags of a user: account state, and small integers for elevation, premium and storage.
#[derive(Debug, Clone, Copy, PartialEq, Eq, Structural, Hash)]
pub struct UserFlags {
    bits: i32,
}

impl View for UserFlags {
    type V = i32;

    closed spec fn view(&self) -> i32 {
        self.bits
    }
}

/// Union of the bits of every named flag of [`UserFlags`].
pub open spec fn user_all_bits() -> i32 {
    0xffffi32
}

#[allow(non_snake_case)]
impl UserFlags {
    pub fn DELETED() -> (r: UserFlags)
        ensures
            r@ == 0x1i32,
    {
        UserFlags { bits: 0x1i32 }
    }

    pub fn VERIFIED() -> (r: UserFlags)
        ensures
            r@ == 0x2i32,
    {
        UserFlags { bits: 0x2i32 }
    }

    pub fn MFA_ENABLED() -> (r: UserFlags)
        ensures
            r@ == 0x4i32,
    {
        UserFlags { bits: 0x4i32 }
    }

    pub fn NEEDS_PASSWORD_RESET() -> (r: UserFlags)
        ensures
            r@ == 0x8i32,
    {
        UserFlags { bits: 0x8i32 }
    }

    pub fn RESERVED_1() -> (r: UserFlags)
        ensures
            r@ == 0x10i32,
    {
        UserFlags { bits: 0x10i32 }
    }

    pub fn RESERVED_2() -> (r: UserFlags)
        ensures
            r@ == 0x20i32,
    {
        UserFlags { bits: 0x20i32 }
    }

    pub fn ELEVATION_1() -> (r: UserFlags)
        ensures
            r@ == 0x40i32,
    {
        UserFlags { bits: 0x40i32 }
    }

    pub fn ELEVATION_2() -> (r: UserFlags)
        ensures
            r@ == 0x80i32,
    {
        UserFlags { bits: 0x80i32 }
    }

    pub fn ELEVATION_3() -> (r: UserFlags)
        ensures
            r@ == 0x100i32,
    {
        UserFlags { bits: 0x100i32 }
    }

    pub fn PREMIUM_1() -> (r: UserFlags)
        ensures
            r@ == 0x200i32,
    {
        UserFlags { bits: 0x200i32 }
    }

    pub fn PREMIUM_2() -> (r: UserFlags)
        ensures
            r@ == 0x400i32,
    {
        UserFlags { bits: 0x400i32 }
    }

    pub fn PREMIUM_3() -> (r: UserFlags)
        ensures
            r@ == 0x800i32,
    {
        UserFlags { bits: 0x800i32 }
    }

    pub fn RESERVED_3() -> (r: UserFlags)
        ensures
            r@ == 0x1000i32,
    {
        UserFlags { bits: 0x1000i32 }
    }

    pub fn EXTRA_STORAGE_1() -> (r: UserFlags)
        ensures
            r@ == 0x2000i32,
    {
        UserFlags { bits: 0x2000i32 }
    }

    pub fn EXTRA_STORAGE_2() -> (r: UserFlags)
        ensures
            r@ == 0x4000i32,
    {
        UserFlags { bits: 0x4000i32 }
    }

    pub fn RESERVED_4() -> (r: UserFlags)
        ensures
            r@ == 0x8000i32,
    {
        UserFlags { bits: 0x8000i32 }
    }

    pub fn RESERVED() -> (r: UserFlags)
        ensures
            r@ == 0x9030i32,
    {
        UserFlags { bits: 0x9030i32 }
    }

    /// Always strip these from public responses
    pub fn PRIVATE_FLAGS() -> (r: UserFlags)
        ensures
            r@ == 0xf03fi32,
    {
        UserFlags { bits: 0xf03fi32 }
    }

    /// elevation level integer
    pub fn ELEVATION() -> (r: UserFlags)
        ensures
            r@ == 0x1c0i32,
    {
        UserFlags { bits: 0x1c0i32 }
    }

    /// premium level integer
    pub fn PREMIUM() -> (r: UserFlags)
        ensures
            r@ == 0xe00i32,
    {
        UserFlags { bits: 0xe00i32 }
    }

    /// extra storage level integer
    pub fn EXTRA_STORAGE() -> (r: UserFlags)
        ensures
            r@ == 0x6000i32,
    {
        UserFlags { bits: 0x6000i32 }
    }

    /// The raw bits.
    pub fn bits(&self) -> (r: i32)
        ensures
            r == self@,
    {
        self.bits
    }

    /// No flags.
    pub fn empty() -> (r: UserFlags)
        ensures
            r@ == 0,
    {
        UserFlags { bits: 0 }
    }

    /// Every named flag.
    pub fn all() -> (r: UserFlags)
        ensures
            r@ == user_all_bits(),
    {
        UserFlags { bits: 0xffffi32 }
    }

    /// Keeps the named flags of `bits` and drops the other bits.
    pub fn from_bits_truncate(bits: i32) -> (r: UserFlags)
        ensures
            r@ == bits & user_all_bits(),
    {
        UserFlags { bits: bits & 0xffffi32 }
    }

    /// Keeps `bits` exactly as given.
    pub fn from_bits_retain(bits: i32) -> (r: UserFlags)
        ensures
            r@ == bits,
    {
        UserFlags { bits }
    }

    /// `Some` exactly when every bit of `bits` names a flag.
    pub fn from_bits(bits: i32) -> (r: Option<UserFlags>)
        ensures
            r is Some <==> bits & !user_all_bits() == 0,
            r matches Some(f) ==> f@ == bits,
    {
        if bits & !0xffffi32 == 0 {
            Some(UserFlags { bits })
        } else {
            None
        }
    }

    pub fn is_empty(&self) -> (r: bool)
        ensures
            r == (self@ == 0),
    {
        self.bits == 0
    }

    /// Whether every flag of `other` is set in `self`.
    pub fn contains(&self, other: UserFlags) -> (r: bool)
        ensures
            r == (self@ & other@ == other@),
    {
        self.bits & other.bits == other.bits
    }

    pub fn union(self, other: UserFlags) -> (r: UserFlags)
        ensures
            r@ == self@ | other@,
    {
        UserFlags { bits: self.bits | other.bits }
    }

    pub fn intersection(self, other: UserFlags) -> (r: UserFlags)
        ensures
            r@ == self@ & other@,
    {
        UserFlags { bits: self.bits & other.bits }
    }

    /// The flags of `self` that are not in `other`.
    pub fn difference(self, other: UserFlags) -> (r: UserFlags)
        ensures
            r@ == self@ & !other@,
    {
        UserFlags { bits: self.bits & !other.bits }
    }

    /// The named flags that are not in `self`.
    pub fn complement(self) -> (r: UserFlags)
        ensures
            r@ == !self@ & user_all_bits(),
    {
        UserFlags { bits: !self.bits & 0xffffi32 }
    }
}

/// Bits of a user profile: avatar roundness, color override and color.
#[derive(Debug, Clone, Copy, PartialEq, Eq, Structural, Hash)]
pub struct UserProfileBits {
    bits: i32,
}

impl View for UserProfileBits {
    type V = i32;

    closed spec fn view(&self) -> i32 {
        self.bits
    }
}

/// Union of the bits of every named flag of [`UserProfileBits`].
pub open spec fn user_profile_all_bits() -> i32 {
    (-1i32)
}

#[allow(non_snake_case)]
impl UserProfileBits {
    /// lower 7 bits
    pub fn AVATAR_ROUNDNESS() -> (r: UserProfileBits)
        ensures
            r@ == 0x7fi32,
    {
        UserProfileBits { bits: 0x7fi32 }
    }

    /// 8th bit
    pub fn OVERRIDE_COLOR() -> (r: UserProfileBits)
        ensures
            r@ == 0x80i32,
    {
        UserProfileBits { bits: 0x80i32 }
    }

    /// top 24 bits
    pub fn COLOR() -> (r: UserProfileBits)
        ensures
            r@ == (-256i32),
    {
        UserProfileBits { bits: (-256i32) }
    }

    /// The raw bits.
    pub fn bits(&self) -> (r: i32)
        ensures
            r == self@,
    {
        self.bits
    }

    /// No flags.
    pub fn empty() -> (r: UserProfileBits)
        ensures
            r@ == 0,
    {
        UserProfileBits { bits: 0 }
    }

    /// Every named flag.
    pub fn all() -> (r: UserProfileBits)
        ensures
            r@ == user_profile_all_bits(),
    {
        UserProfileBits { bits: (-1i32) }
    }

    /// Keeps the named flags of `bits` and drops the other bits.
    pub fn from_bits_truncate(bits: i32) -> (r: UserProfileBits)
        ensures
            r@ == bits & user_profile_all_bits(),
    {
        UserProfileBits { bits: bits & (-1i32) }
    }

    /// Keeps `bits` exactly as given.
    pub fn from_bits_retain(bits: i32) -> (r: UserProfileBits)
        ensures
            r@ == bits,
    {
        UserProfileBits { bits }
    }

    /// `Some` exactly when every bit of `bits` names a flag.
    pub fn from_bits(bits: i32) -> (r: Option<UserProfileBits>)
        ensures
            r is Some <==> bits & !user_profile_all_bits() == 0,
            r matches Some(f) ==> f@ == bits,
    {
        if bits & !(-1i32) == 0 {
            Some(UserProfileBits { bits })
        } else {
            None
        }
    }

    pub fn is_empty(&self) -> (r: bool)
        ensures
            r == (self@ == 0),
    {
        self.bits == 0
    }

    /// Whether every flag of `other` is set in `self`.
    pub fn contains(&self, other: UserProfileBits) -> (r: bool)
        ensures
            r == (self@ & other@ == other@),
    {
        self.bits & other.bits == other.bits
    }

    pub fn union(self, other: UserProfileBits) -> (r: UserProfileBits)
        ensures
            r@ == self@ | other@,
    {
        UserProfileBits { bits: self.bits | other.bits }
    }

    pub fn intersection(self, other: UserProfileBits) -> (r: UserProfileBits)
        ensures
            r@ == self@ & other@,
    {
        UserProfileBits { bits: self.bits & other.bits }
    }

    /// The flags of `self` that are not in `other`.
    pub fn difference(self, other: UserProfileBits) -> (r: UserProfileBits)
        ensures
            r@ == self@ & !other@,
    {
        UserProfileBits { bits: self.bits & !other.bits }
    }

    /// The named flags that are not in `self`.
    pub fn complement(self) -> (r: UserProfileBits)
        ensures
            r@ == !self@ & user_profile_all_bits(),
    {
        UserProfileBits { bits: !self.bits & (-1i32) }
    }
}

/// Flags of a friend.
#[derive(Debug, Clone, Copy, PartialEq, Eq, Structural, Hash)]
pub struct FriendFlags {
    bits: i16,
}

impl View for FriendFlags {
    type V = i16;

    closed spec fn view(&self) -> i16 {
        self.bits
    }
}

/// Union of the bits of every named flag of [`FriendFlags`].
pub open spec fn friend_all_bits() -> i16 {
    0x1i16
}

#[allow(non_snake_case)]
impl FriendFlags {
    /// Pins the user to the top of their friendlist
    pub fn FAVORITE() -> (r: FriendFlags)
        ensures
            r@ == 0x1i16,
    {
        FriendFlags { bits: 0x1i16 }
    }

    /// The raw bits.
    pub fn bits(&self) -> (r: i16)
        ensures
            r == self@,
    {
        self.bits
    }

    /// No flags.
    pub fn empty() -> (r: FriendFlags)
        ensures
            r@ == 0,
    {
        FriendFlags { bits: 0 }
    }

    /// Every named flag.
    pub fn all() -> (r: FriendFlags)
        ensures
            r@ == friend_all_bits(),
    {
        FriendFlags { bits: 0x1i16 }
    }

    /// Keeps the named flags of `bits` and drops the other bits.
    pub fn from_bits_truncate(bits: i16) -> (r: FriendFlags)
        ensures
            r@ == bits & friend_all_bits(),
    {
        FriendFlags { bits: bits & 0x1i16 }
    }

    /// Keeps `bits` exactly as given.
    pub fn from_bits_retain(bits: i16) -> (r: FriendFlags)
        ensures
            r@ == bits,
    {
        FriendFlags { bits }
    }

    /// `Some` exactly when every bit of `bits` names a flag.
    pub fn from_bits(bits: i16) -> (r: Option<FriendFlags>)
        ensures
            r is Some <==> bits & !friend_all_bits() == 0,
            r matches Some(f) ==> f@ == bits,
    {
        if bits & !0x1i16 == 0 {
            Some(FriendFlags { bits })
        } else {
            None
        }
    }

    pub fn is_empty(&self) -> (r: bool)
        ensures
            r == (self@ == 0),
    {
        self.bits == 0
    }

    /// Whether every flag of `other` is set in `self`.
    pub fn contains(&self, other: FriendFlags) -> (r: bool)
        ensures
            r == (self@ & other@ == other@),
    {
        self.bits & other.bits == other.bits
    }

    pub fn union(self, other: FriendFlags) -> (r: FriendFlags)
        ensures
            r@ == self@ | other@,
    {
        FriendFlags { bits: self.bits | other.bits }
    }

    pub fn intersection(self, other: FriendFlags) -> (r: FriendFlags)
        ensures
            r@ == self@ & other@,
    {
        FriendFlags { bits: self.bits & other.bits }
    }

    /// The flags of `self` that are not in `other`.
    pub fn difference(self, other: FriendFlags) -> (r: FriendFlags)
        ensures
            r@ == self@ & !other@,
    {
        FriendFlags { bits: self.bits & !other.bits }
    }

    /// The named flags that are not in `self`.
    pub fn complement(self) -> (r: FriendFlags)
        ensures
            r@ == !self@ & friend_all_bits(),
    {
        FriendFlags { bits: !self.bits & 0x1i16 }
    }
}

/// The elevation of a user account.
#[derive(Debug, Clone, Copy, PartialEq, Eq, Structural, PartialOrd, Ord, Hash)]
pub enum ElevationLevel {
    NoElevation,
    Bot,
    Reserved,
    Staff,
    System,
}

/// The numeric code of an elevation level.
pub open spec fn elevation_code(ev: ElevationLevel) -> i32 {
    match ev {
        ElevationLevel::NoElevation => 0,
        ElevationLevel::Bot => 1,
        ElevationLevel::Reserved => 2,
        ElevationLevel::Staff => 3,
        ElevationLevel::System => 4,
    }
}

/// The elevation that the three elevation bits (bits 6 to 8) encode; the reserved code and the
/// unused codes read as no elevation.
pub open spec fn elevation_of(bits: i32) -> ElevationLevel {
    let v = (bits & 0x1c0i32) >> 6i32;
    if v == 1 {
        ElevationLevel::Bot
    } else if v == 3 {
        ElevationLevel::Staff
    } else if v == 4 {
        ElevationLevel::System
    } else {
        ElevationLevel::NoElevation
    }
}

/// The flags with the elevation bits replaced by the code of `ev`.
pub open spec fn with_elevation_bits(bits: i32, ev: ElevationLevel) -> i32 {
    (bits & !0x1c0i32) | ((elevation_code(ev) << 6i32) & user_all_bits())
}

impl ElevationLevel {
    /// The numeric code of the level.
    pub fn code(self) -> (r: u8)
        ensures
            r as i32 == elevation_code(self),
    {
        match self {
            ElevationLevel::NoElevation => 0,
            ElevationLevel::Bot => 1,
            ElevationLevel::Reserved => 2,
            ElevationLevel::Staff => 3,
            ElevationLevel::System => 4,
        }
    }
}

impl UserFlags {
    /// The named flags of `bits`, without the private ones.
    pub fn from_bits_truncate_public(bits: i32) -> (r: UserFlags)
        ensures
            r@ == (bits & user_all_bits()) & !0xf03fi32,
    {
        UserFlags::from_bits_truncate(bits).difference(UserFlags::PRIVATE_FLAGS())
    }

    /// The elevation level of the user.
    pub fn elevation(self) -> (r: ElevationLevel)
        ensures
            r == elevation_of(self@),
    {
        let v = self.intersection(UserFlags::ELEVATION()).bits() >> 6u32;
        if v == 1 {
            ElevationLevel::Bot
        } else if v == 3 {
            ElevationLevel::Staff
        } else if v == 4 {
            ElevationLevel::System
        } else {
            ElevationLevel::NoElevation
        }
    }

    /// The flags with the elevation replaced by `ev`.
    pub fn with_elevation(self, ev: ElevationLevel) -> (r: UserFlags)
        ensures
            r@ == with_elevation_bits(self@, ev),
    {
        let code = ev.code() as i32;
        assert(code << 6i32 == elevation_code(ev) << 6i32);
        self.difference(UserFlags::ELEVATION()).union(UserFlags::from_bits_truncate(code << 6u32))
    }

    /// The premium level, a 3-bit integer.
    pub fn premium_level(self) -> (r: u8)
        ensures
            r == ((self@ & 0xe00i32) >> 9i32) as u8,
    {
        (self.intersection(UserFlags::PREMIUM()).bits() >> 9u32) as u8
    }

    /// The extra storage tier, a 2-bit integer.
    pub fn extra_storage_tier(self) -> (r: u8)
        ensures
            r == ((self@ & 0x6000i32) >> 13i32) as u8,
    {
        (self.intersection(UserFlags::EXTRA_STORAGE()).bits() >> 13u32) as u8
    }
}

/// Setting an elevation other than the reserved one and reading it back gives that elevation.
pub proof fn law_elevation_roundtrip(bits: i32, ev: ElevationLevel)
    requires
        ev != ElevationLevel::Reserved,
    ensures
        elevation_of(with_elevation_bits(bits, ev)) == ev,
{
    let c = elevation_code(ev);
    let r = with_elevation_bits(bits, ev);
    assert(((bits & !0x1c0i32) | ((c << 6i32) & 0xffffi32)) & 0x1c0i32 == c << 6i32) by (bit_vector)
        requires
            0 <= c <= 4,
    ;
    assert((c << 6i32) >> 6i32 == c) by (bit_vector)
        requires
            0 <= c <= 4,
    ;
}

/// Setting an elevation keeps every flag outside the elevation bits.
pub proof fn law_elevation_keeps_other_flags(bits: i32, ev: ElevationLevel)
    ensures
        with_elevation_bits(bits, ev) & !0x1c0i32 == bits & !0x1c0i32,
{
    let c = elevation_code(ev);
    assert(((bits & !0x1c0i32) | ((c << 6i32) & 0xffffi32)) & !0x1c0i32 == bits & !0x1c0i32) by (bit_vector)
        requires
            0 <= c <= 4,
    ;
}

/// The date of birth of a user.
#[derive(Debug, Clone, Copy, PartialEq, Eq, Structural)]
pub struct DateOfBirth {
    pub year: i32,
    pub month: u8,
    pub day: u8,
}

/// Date of the `time` crate, in the proleptic Gregorian calendar.
#[verifier::external_type_specification]
#[verifier::external_body]
pub struct ExDate(time::Date);

/// Error of the `time` crate for a component out of its range.
#[verifier::external_type_specification]
#[verifier::external_body]
pub struct ExComponentRange(time::error::ComponentRange);

/// Whether the year is a leap year of the proleptic Gregorian calendar, with astronomical
/// year numbering.
pub open spec fn is_leap_year(year: int) -> bool {
    year % 4 == 0 && (year % 100 != 0 || year % 400 == 0)
}

/// The number of days of a month of the year.
pub open spec fn days_in_month(year: int, month: int) -> int {
    if month == 2 {
        if is_leap_year(year) {
            29
        } else {
            28
        }
    } else if month == 4 || month == 6 || month == 9 || month == 11 {
        30
    } else {
        31
    }
}

/// Whether the year, month and day name a date that the `time` crate can hold: a year within
/// ±9999, a month from 1 to 12, and a day of that month.
pub open spec fn valid_calendar_date(year: i32, month: u8, day: u8) -> bool {
    &&& -9999 <= year <= 9999
    &&& 1 <= month <= 12
    &&& 1 <= day <= days_in_month(year as int, month as int)
}

/// The date that `time::Date::from_calendar_date` builds from a year, month and day.
pub uninterp spec fn calendar_date(year: i32, month: u8, day: u8) -> time::Date;

/// Calls `time::Month::try_from` on the month number, then `time::Date::from_calendar_date`:
/// `Ok` exactly when the year is within ±9999 (the crate's range without its `large-dates`
/// feature), the month is from 1 to 12, and the day is a day of that month, leap years being
/// those of the proleptic Gregorian calendar.
#[verifier::external_body]
fn date_from_calendar_date(year: i32, month: u8, day: u8) -> (r: Result<time::Date, time::error::ComponentRange>)
    ensures
        r is Ok <==> valid_calendar_date(year, month, day),
        r matches Ok(d) ==> d == calendar_date(year, month, day),
{
    time::Date::from_calendar_date(year, time::Month::try_from(month)?, day)
}

/// Calls `time::Date::to_calendar_date`, with the month as its number: the year, month and
/// day of the date, which name a valid date, and building the date from them gives it back.
#[verifier::external_body]
fn date_to_calendar_date(d: time::Date) -> (r: (i32, u8, u8))
    ensures
        valid_calendar_date(r.0, r.1, r.2),
        calendar_date(r.0, r.1, r.2) == d,
{
    let (year, month, day) = d.to_calendar_date();
    (year, month as u8, day)
}

impl From<time::Date> for DateOfBirth {
    fn from(d: time::Date) -> (r: DateOfBirth)
        ensures
            valid_calendar_date(r.year, r.month, r.day),
            calendar_date(r.year, r.month, r.day) == d,
    {
        let (year, month, day) = date_to_calendar_date(d);
        DateOfBirth { year, month, day }
    }
}

impl vstd::std_specs::convert::FromSpecImpl<time::Date> for DateOfBirth {
    open spec fn obeys_from_spec() -> bool {
        false
    }

    open spec fn from_spec(d: time::Date) -> DateOfBirth {
        arbitrary()
    }
}

impl TryFrom<DateOfBirth> for time::Date {
    type Error = time::error::ComponentRange;

    fn try_from(d: DateOfBirth) -> (r: Result<time::Date, time::error::ComponentRange>)
        ensures
            r is Ok <==> valid_calendar_date(d.year, d.month, d.day),
            r matches Ok(date) ==> date == calendar_date(d.year, d.month, d.day),
    {
        date_from_calendar_date(d.year, d.month, d.day)
    }
}

impl vstd::std_specs::convert::TryFromSpecImpl<DateOfBirth> for time::Date {
    open spec fn obeys_try_from_spec() -> bool {
        false
    }

    open spec fn try_from_spec(d: DateOfBirth) -> Result<time::Date, time::error::ComponentRange> {
        arbitrary()
    }
}

/// Profile of a user.
#[derive(Debug, Clone)]
pub struct UserProfile {
    pub bits: UserProfileBits,
    pub avatar: Nullable<smol_str::SmolStr>,
    pub banner: Nullable<smol_str::SmolStr>,
    pub status: Nullable<smol_str::SmolStr>,
    pub bio: Nullable<smol_str::SmolStr>,
}

impl Default for UserProfileBits {
    fn default() -> (r: UserProfileBits)
        ensures
            r@ == 0,
    {
        UserProfileBits::empty()
    }
}

impl Default for UserProfile {
    fn default() -> (r: UserProfile)
        ensures
            r.bits@ == 0,
            r.avatar is Undefined,
            r.banner is Undefined,
            r.status is Undefined,
            r.bio is Undefined,
    {
        UserProfile {
            bits: UserProfileBits::empty(),
            avatar: Nullable::Undefined,
            banner: Nullable::Undefined,
            status: Nullable::Undefined,
            bio: Nullable::Undefined,
        }
    }
}

impl UserProfile {
    /// Whether the profile color overrides the default one.
    pub fn override_color(&self) -> (r: bool)
        ensures
            r == (self.bits@ & 0x80i32 == 0x80i32),
    {
        self.bits.contains(UserProfileBits::OVERRIDE_COLOR())
    }

    /// The profile color: the top 24 bits.
    pub fn color(&self) -> (r: u32)
        ensures
            r == (self.bits@ as u32) >> 8u32,
    {
        (self.bits.bits() as u32) >> 8u32
    }
}

/// A user.
#[derive(Debug, Clone)]
pub struct User {
    pub id: Snowflake,
    pub username: smol_str::SmolStr,
    /// Unsigned 16-bit integer
    pub discriminator: i32,
    pub flags: UserFlags,
    pub profile: Nullable<UserProfile>,
    /// Not present when user isn't self
    pub email: Option<smol_str::SmolStr>,
    /// Not present when user isn't self
    pub preferences: Option<UserPreferences>,
}

/// A friend of the user.
#[derive(Debug, Clone)]
pub struct Friend {
    pub note: Option<smol_str::SmolStr>,
    pub flags: FriendFlags,
    pub user: User,
}

} // verus!
