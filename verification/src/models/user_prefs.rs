//! User preferences: the fields a user may set, which values each accepts, and their defaults.

use vstd::prelude::*;

use crate::util::text::str_eq;

use crate::util::json::{json_as_u64, json_f64_equals, json_f64_within, JsonNumber, JsonValue};
use crate::util::prefs::{Preference, PreferenceError, PreferenceErrorKind, PreferenceMap};

verus! {

/// Flags of the user preferences.
#[derive(Debug, Clone, Copy, PartialEq, Eq, Structural, Hash)]
pub struct UserPrefsFlags {
    bits: i32,
}

impl View for UserPrefsFlags {
    type V = i32;

    closed spec fn view(&self) -> i32 {
        self.bits
    }
}

/// Union of the bits of every named flag of [`UserPrefsFlags`].
pub open spec fn user_prefs_all_bits() -> i32 {
    0x7fffffi32
}

#[allow(non_snake_case)]
impl UserPrefsFlags {
    /// Reduce movement and animations in the UI
    pub fn REDUCE_ANIMATIONS() -> (r: UserPrefsFlags)
        ensures
            r@ == 0x1i32,
    {
        UserPrefsFlags { bits: 0x1i32 }
    }

    /// Pause animations on window unfocus
    pub fn UNFOCUS_PAUSE() -> (r: UserPrefsFlags)
        ensures
            r@ == 0x2i32,
    {
        UserPrefsFlags { bits: 0x2i32 }
    }

    pub fn LIGHT_MODE() -> (r: UserPrefsFlags)
        ensures
            r@ == 0x4i32,
    {
        UserPrefsFlags { bits: 0x4i32 }
    }

    /// Allow direct messages from shared server memmbers
    pub fn ALLOW_DMS() -> (r: UserPrefsFlags)
        ensures
            r@ == 0x8i32,
    {
        UserPrefsFlags { bits: 0x8i32 }
    }

    /// Show small lines between message groups
    pub fn GROUP_LINES() -> (r: UserPrefsFlags)
        ensures
            r@ == 0x10i32,
    {
        UserPrefsFlags { bits: 0x10i32 }
    }

    pub fn HIDE_AVATARS() -> (r: UserPrefsFlags)
        ensures
            r@ == 0x20i32,
    {
        UserPrefsFlags { bits: 0x20i32 }
    }

    /// Display dark theme in an OLED-compatible mode
    pub fn OLED_MODE() -> (r: UserPrefsFlags)
        ensures
            r@ == 0x40i32,
    {
        UserPrefsFlags { bits: 0x40i32 }
    }

    /// Mute videos/audio by default
    pub fn MUTE_MEDIA() -> (r: UserPrefsFlags)
        ensures
            r@ == 0x80i32,
    {
        UserPrefsFlags { bits: 0x80i32 }
    }

    /// Hide images/video with unknown dimensions
    pub fn HIDE_UNKNOWN_DIMENSIONS() -> (r: UserPrefsFlags)
        ensures
            r@ == 0x100i32,
    {
        UserPrefsFlags { bits: 0x100i32 }
    }

    pub fn COMPACT_VIEW() -> (r: UserPrefsFlags)
        ensures
            r@ == 0x200i32,
    {
        UserPrefsFlags { bits: 0x200i32 }
    }

    /// Prefer browser/platform emojis rather than twemoji
    pub fn USE_PLATFORM_EMOJIS() -> (r: UserPrefsFlags)
        ensures
            r@ == 0x400i32,
    {
        UserPrefsFlags { bits: 0x400i32 }
    }

    pub fn ENABLE_SPELLCHECK() -> (r: UserPrefsFlags)
        ensures
            r@ == 0x800i32,
    {
        UserPrefsFlags { bits: 0x800i32 }
    }

    pub fn LOW_BANDWIDTH_MODE() -> (r: UserPrefsFlags)
        ensures
            r@ == 0x1000i32,
    {
        UserPrefsFlags { bits: 0x1000i32 }
    }

    pub fn FORCE_COLOR_CONSTRAST() -> (r: UserPrefsFlags)
        ensures
            r@ == 0x2000i32,
    {
        UserPrefsFlags { bits: 0x2000i32 }
    }

    /// Displays information like mime type and file size
    pub fn SHOW_MEDIA_METADATA() -> (r: UserPrefsFlags)
        ensures
            r@ == 0x4000i32,
    {
        UserPrefsFlags { bits: 0x4000i32 }
    }

    pub fn DEVELOPER_MODE() -> (r: UserPrefsFlags)
        ensures
            r@ == 0x8000i32,
    {
        UserPrefsFlags { bits: 0x8000i32 }
    }

    pub fn SHOW_DATE_CHANGE() -> (r: UserPrefsFlags)
        ensures
            r@ == 0x10000i32,
    {
        UserPrefsFlags { bits: 0x10000i32 }
    }

    pub fn HIDE_LAST_ACTIVE() -> (r: UserPrefsFlags)
        ensures
            r@ == 0x20000i32,
    {
        UserPrefsFlags { bits: 0x20000i32 }
    }

    /// Show grey background color for images
    /// (helps keep transparent pixels consistent)
    pub fn SHOW_GREY_IMAGE_BG() -> (r: UserPrefsFlags)
        ensures
            r@ == 0x40000i32,
    {
        UserPrefsFlags { bits: 0x40000i32 }
    }

    /// When multiple attachments are present, condense them
    /// into a grid to avoid cluttering the channel
    pub fn SHOW_ATTACHMENT_GRID() -> (r: UserPrefsFlags)
        ensures
            r@ == 0x80000i32,
    {
        UserPrefsFlags { bits: 0x80000i32 }
    }

    pub fn SMALLER_ATTACHMENTS() -> (r: UserPrefsFlags)
        ensures
            r@ == 0x100000i32,
    {
        UserPrefsFlags { bits: 0x100000i32 }
    }

    pub fn HIDE_ALL_EMBEDS() -> (r: UserPrefsFlags)
        ensures
            r@ == 0x200000i32,
    {
        UserPrefsFlags { bits: 0x200000i32 }
    }

    pub fn HIDE_NSFW_EMBEDS() -> (r: UserPrefsFlags)
        ensures
            r@ == 0x400000i32,
    {
        UserPrefsFlags { bits: 0x400000i32 }
    }

    pub fn DEFAULT_FLAGS() -> (r: UserPrefsFlags)
        ensures
            r@ == 0xd4818i32,
    {
        UserPrefsFlags { bits: 0xd4818i32 }
    }

    /// The raw bits.
    pub fn bits(&self) -> (r: i32)
        ensures
            r == self@,
    {
        self.bits
    }

    /// No flags.
    pub fn empty() -> (r: UserPrefsFlags)
        ensures
            r@ == 0,
    {
        UserPrefsFlags { bits: 0 }
    }

    /// Every named flag.
    pub fn all() -> (r: UserPrefsFlags)
        ensures
            r@ == user_prefs_all_bits(),
    {
        UserPrefsFlags { bits: 0x7fffffi32 }
    }

    /// Keeps the named flags of `bits` and drops the other bits.
    pub fn from_bits_truncate(bits: i32) -> (r: UserPrefsFlags)
        ensures
            r@ == bits & user_prefs_all_bits(),
    {
        UserPrefsFlags { bits: bits & 0x7fffffi32 }
    }

    /// Keeps `bits` exactly as given.
    pub fn from_bits_retain(bits: i32) -> (r: UserPrefsFlags)
        ensures
            r@ == bits,
    {
        UserPrefsFlags { bits }
    }

    /// `Some` exactly when every bit of `bits` names a flag.
    pub fn from_bits(bits: i32) -> (r: Option<UserPrefsFlags>)
        ensures
            r is Some <==> bits & !user_prefs_all_bits() == 0,
            r matches Some(f) ==> f@ == bits,
    {
        if bits & !0x7fffffi32 == 0 {
            Some(UserPrefsFlags { bits })
        } else {
            None
        }
    }

    pub fn is_empty(&self) -> (r: bool)
        ensures
            r == (self@ == 0),
    {
        self.bits == 0
    }

    /// Whether every flag of `other` is set in `self`.
    pub fn contains(&self, other: UserPrefsFlags) -> (r: bool)
        ensures
            r == (self@ & other@ == other@),
    {
        self.bits & other.bits == other.bits
    }

    pub fn union(self, other: UserPrefsFlags) -> (r: UserPrefsFlags)
        ensures
            r@ == self@ | other@,
    {
        UserPrefsFlags { bits: self.bits | other.bits }
    }

    pub fn intersection(self, other: UserPrefsFlags) -> (r: UserPrefsFlags)
        ensures
            r@ == self@ & other@,
    {
        UserPrefsFlags { bits: self.bits & other.bits }
    }

    /// The flags of `self` that are not in `other`.
    pub fn difference(self, other: UserPrefsFlags) -> (r: UserPrefsFlags)
        ensures
            r@ == self@ & !other@,
    {
        UserPrefsFlags { bits: self.bits & !other.bits }
    }

    /// The named flags that are not in `self`.
    pub fn complement(self) -> (r: UserPrefsFlags)
        ensures
            r@ == !self@ & user_prefs_all_bits(),
    {
        UserPrefsFlags { bits: !self.bits & 0x7fffffi32 }
    }
}


#[derive(Debug, Clone, Copy, PartialEq, Eq, Structural, Hash)]
#[allow(non_camel_case_types)]
pub enum Locale {
    enUS,
    __MAX_LOCALE,
}

impl Locale {
    /// The numeric code of the locale.
    pub fn code(self) -> (r: u16)
        ensures
            r == (match self {
                Locale::enUS => 0u16,
                Locale::__MAX_LOCALE => 1u16,
            }),
    {
        match self {
            Locale::enUS => 0,
            Locale::__MAX_LOCALE => 1,
        }
    }
}

impl Default for Locale {
    fn default() -> (r: Locale)
        ensures
            r == Locale::enUS,
    {
        Locale::enUS
    }
}

#[derive(Debug, Clone, Copy, PartialEq, Eq, Structural, Hash)]
#[allow(non_camel_case_types)]
pub enum Font {
    SansSerif,
    Serif,
    Monospace,
    Cursive,
    ComicSans,
    OpenDyslexic,
    AtkinsonHyperlegible,
    __MAX_FONT,
}

impl Font {
    /// The numeric code of the font.
    pub fn code(self) -> (r: u16)
        ensures
            r == (match self {
                Font::SansSerif => 0u16,
                Font::Serif => 1u16,
                Font::Monospace => 2u16,
                Font::Cursive => 3u16,
                Font::ComicSans => 4u16,
                Font::OpenDyslexic => 30u16,
                Font::AtkinsonHyperlegible => 31u16,
                Font::__MAX_FONT => 32u16,
            }),
    {
        match self {
            Font::SansSerif => 0,
            Font::Serif => 1,
            Font::Monospace => 2,
            Font::Cursive => 3,
            Font::ComicSans => 4,
            Font::OpenDyslexic => 30,
            Font::AtkinsonHyperlegible => 31,
            Font::__MAX_FONT => 32,
        }
    }
}

/// The fields of the user preferences.
#[derive(Debug, Clone, Copy, PartialEq, Eq, Structural, Hash)]
pub enum UserPreference {
    Locale,
    Flags,
    /// Who can add you as a friend,
    /// number 0-3 where 0 = no one, 1 = friends of friends, 2 = server members, 3 = anyone
    FriendAdd,
    /// Color temperature
    Temp,
    /// Chat font
    ChatFont,
    /// UI Font
    UiFont,
    /// Font size
    ChatFontSize,
    /// UI Font Size
    UiFontSize,
    /// Message Tab Size (in spaces)
    TabSize,
    /// Time format
    TimeFormat,
    /// Group padding
    Pad,
    /// Any field name that is not one of the above
    InvalidField,
}

/// The code of the last locale plus one.
pub open spec fn max_locale_code() -> u64 {
    1
}

/// Whether a number is the code of a font of the list: the built-in fonts `0..=4`, then
/// `OpenDyslexic` (30) and `AtkinsonHyperlegible` (31).
pub open spec fn is_font_code(n: u64) -> bool {
    n <= 4 || n == 30 || n == 31
}

/// Lowest color temperature, in kelvin.
pub open spec fn temp_min() -> u64 {
    965
}

/// Highest color temperature, in kelvin.
pub open spec fn temp_max() -> u64 {
    12000
}

/// Bits of the `f64` encoding of 965.0.
pub open spec fn temp_min_f64_bits() -> u64 {
    0x408e280000000000
}

/// Bits of the `f64` encoding of 12000.0.
pub open spec fn temp_max_f64_bits() -> u64 {
    0x40c7700000000000
}

/// Bits of the `f64` encoding of 7500.0.
pub open spec fn temp_default_f64_bits() -> u64 {
    0x40bd4c0000000000
}

/// Whether a number taken as user preference flags names flags only: it fits in 32 bits and,
/// read as an `i32`, every set bit names a flag.
pub open spec fn valid_user_prefs_flags(value: u64) -> bool {
    value <= 0xffff_ffffu64 && (#[verifier::truncate] (value as i32)) & !user_prefs_all_bits() == 0
}

/// Whether a non-negative integer is an acceptable value of the field.
pub open spec fn integer_in_range(field: UserPreference, n: u64) -> bool {
    match field {
        UserPreference::Locale => n < max_locale_code(),
        UserPreference::FriendAdd => n <= 3,
        UserPreference::Flags => valid_user_prefs_flags(n),
        UserPreference::ChatFont | UserPreference::UiFont => is_font_code(n),
        UserPreference::TabSize => 0 < n < 64,
        UserPreference::ChatFontSize | UserPreference::UiFontSize => 8 <= n <= 32,
        UserPreference::Pad => n <= 32,
        _ => false,
    }
}

/// Whether a field takes a non-negative integer as its value.
pub open spec fn takes_integer(field: UserPreference) -> bool {
    match field {
        UserPreference::Locale | UserPreference::FriendAdd | UserPreference::Flags | UserPreference::ChatFont
        | UserPreference::UiFont | UserPreference::TabSize | UserPreference::ChatFontSize
        | UserPreference::UiFontSize | UserPreference::Pad => true,
        _ => false,
    }
}

/// Whether `value` has the type that `field` takes; when it does, a value outside the
/// field's range is an invalid value rather than an invalid type.
pub open spec fn has_field_type(field: UserPreference, value: JsonValue) -> bool {
    if value is Null {
        false
    } else if takes_integer(field) {
        json_as_u64(value) is Some
    } else {
        match field {
            UserPreference::Temp => value is Number,
            _ => false,
        }
    }
}

/// Whether `value` is acceptable for `field`.
pub open spec fn user_pref_valid(field: UserPreference, value: JsonValue) -> bool {
    if value is Null {
        false
    } else if takes_integer(field) {
        match json_as_u64(value) {
            Some(n) => integer_in_range(field, n),
            None => false,
        }
    } else {
        match field {
            UserPreference::Temp => json_f64_within(
                value,
                temp_min(),
                temp_max(),
                temp_min_f64_bits(),
                temp_max_f64_bits(),
            ),
            UserPreference::TimeFormat => value is String || value is Bool,
            _ => false,
        }
    }
}

/// The result of validating `value` for `field`.
pub open spec fn user_pref_validate(field: UserPreference, value: JsonValue) -> Result<(), PreferenceError<UserPreference>> {
    if user_pref_valid(field, value) {
        Ok(())
    } else {
        Err(PreferenceError {
            field,
            kind: if has_field_type(field, value) {
                PreferenceErrorKind::InvalidValue
            } else {
                PreferenceErrorKind::InvalidType
            },
        })
    }
}

/// Whether `value` is the default of `field`; the default padding depends on compact view.
pub open spec fn user_pref_is_default(field: UserPreference, value: JsonValue, flags: UserPrefsFlags) -> bool {
    match field {
        UserPreference::Flags => json_as_u64(value) == Some(0xd4818u64),
        UserPreference::ChatFontSize | UserPreference::UiFontSize => json_as_u64(value) == Some(16u64),
        UserPreference::Temp => json_f64_equals(value, 7500, temp_default_f64_bits()),
        UserPreference::FriendAdd => json_as_u64(value) == Some(3u64),
        UserPreference::Locale => json_as_u64(value) == Some(0u64),
        UserPreference::ChatFont | UserPreference::UiFont => json_as_u64(value) == Some(0u64),
        UserPreference::TabSize => json_as_u64(value) == Some(4u64),
        UserPreference::Pad => if flags@ & 0x200i32 == 0x200i32 {
            json_as_u64(value) == Some(0u64)
        } else {
            json_as_u64(value) == Some(16u64)
        },
        _ => false,
    }
}

/// The user preference flags that a flags value gives: the named flags of its low 32 bits,
/// or the defaults when there is no such value.
pub closed spec fn user_prefs_flags_from(value: Option<u64>) -> UserPrefsFlags {
    match value {
        Some(v) => UserPrefsFlags { bits: (#[verifier::truncate] (v as i32)) & user_prefs_all_bits() },
        None => UserPrefsFlags { bits: 0xd4818i32 },
    }
}

/// What [`user_prefs_flags_from`] gives, by its bits.
pub proof fn lemma_user_prefs_flags_from(value: Option<u64>)
    ensures
        user_prefs_flags_from(value)@ == match value {
            Some(v) => (#[verifier::truncate] (v as i32)) & user_prefs_all_bits(),
            None => 0xd4818i32,
        },
{
}

impl From<u64> for UserPrefsFlags {
    fn from(value: u64) -> (r: UserPrefsFlags)
        ensures
            r@ == (#[verifier::truncate] (value as i32)) & user_prefs_all_bits(),
    {
        UserPrefsFlags::from_bits_truncate(#[verifier::truncate] (value as i32))
    }
}

impl vstd::std_specs::convert::FromSpecImpl<u64> for UserPrefsFlags {
    open spec fn obeys_from_spec() -> bool {
        true
    }

    open spec fn from_spec(v: u64) -> UserPrefsFlags {
        user_prefs_flags_from(Some(v))
    }
}

impl Default for UserPrefsFlags {
    fn default() -> (r: UserPrefsFlags)
        ensures
            r@ == 0xd4818i32,
    {
        UserPrefsFlags::DEFAULT_FLAGS()
    }
}

impl Preference for UserPreference {
    type Flags = UserPrefsFlags;

    open spec fn spec_validate(self, value: JsonValue) -> Result<(), PreferenceError<UserPreference>> {
        user_pref_validate(self, value)
    }

    open spec fn spec_is_default(self, value: JsonValue, flags: UserPrefsFlags) -> bool {
        user_pref_is_default(self, value, flags)
    }

    open spec fn spec_flags_key() -> UserPreference {
        UserPreference::Flags
    }

    open spec fn spec_flags_from(value: Option<u64>) -> UserPrefsFlags {
        user_prefs_flags_from(value)
    }

    open spec fn spec_name(self) -> Seq<char> {
        user_pref_name(self)
    }

    fn name(&self) -> (r: &'static str) {
        self.field_name()
    }

    fn flags_key() -> (r: UserPreference) {
        UserPreference::Flags
    }

    fn validate(&self, value: &JsonValue) -> (r: Result<(), PreferenceError<UserPreference>>) {
        let mut kind = PreferenceErrorKind::InvalidType;
        let valid = if value.is_null() {
            false
        } else {
            match *self {
                UserPreference::InvalidField => false,
                UserPreference::Locale => match value.as_u64() {
                    Some(n) => {
                        kind = PreferenceErrorKind::InvalidValue;
                        n < 1
                    },
                    None => false,
                },
                UserPreference::FriendAdd => match value.as_u64() {
                    Some(n) => {
                        kind = PreferenceErrorKind::InvalidValue;
                        n <= 3
                    },
                    None => false,
                },
                UserPreference::Flags => match value.as_u64() {
                    Some(n) => {
                        kind = PreferenceErrorKind::InvalidValue;
                        n <= 0xffff_ffffu64 && UserPrefsFlags::from_bits(#[verifier::truncate] (n as i32)).is_some()
                    },
                    None => false,
                },
                UserPreference::Temp => {
                    if value.is_number() {
                        kind = PreferenceErrorKind::InvalidValue;
                        value.f64_within(965, 12000, 0x408e280000000000, 0x40c7700000000000)
                    } else {
                        false
                    }
                },
                UserPreference::TimeFormat => match value {
                    JsonValue::String(_) => true,
                    JsonValue::Bool(_) => true,
                    _ => false,
                },
                UserPreference::ChatFont | UserPreference::UiFont => match value.as_u64() {
                    Some(n) => {
                        kind = PreferenceErrorKind::InvalidValue;
                        n <= 4 || n == 30 || n == 31
                    },
                    None => false,
                },
                UserPreference::TabSize => match value.as_u64() {
                    Some(n) => {
                        kind = PreferenceErrorKind::InvalidValue;
                        n > 0 && n < 64
                    },
                    None => false,
                },
                UserPreference::ChatFontSize | UserPreference::UiFontSize => match value.as_u64() {
                    Some(n) => {
                        kind = PreferenceErrorKind::InvalidValue;
                        8 <= n && n <= 32
                    },
                    None => false,
                },
                UserPreference::Pad => match value.as_u64() {
                    Some(n) => {
                        kind = PreferenceErrorKind::InvalidValue;
                        n <= 32
                    },
                    None => false,
                },
            }
        };
        if !valid {
            Err(PreferenceError { field: *self, kind })
        } else {
            Ok(())
        }
    }

    fn is_default(&self, value: &JsonValue, flags: UserPrefsFlags) -> (r: bool) {
        match *self {
            UserPreference::Flags => value.as_u64() == Some(0xd4818u64),
            UserPreference::ChatFontSize | UserPreference::UiFontSize => value.as_u64() == Some(16u64),
            UserPreference::Temp => value.f64_equals(7500, 0x40bd4c0000000000),
            UserPreference::FriendAdd => value.as_u64() == Some(3u64),
            UserPreference::Locale => value.as_u64() == Some(0u64),
            UserPreference::ChatFont | UserPreference::UiFont => value.as_u64() == Some(0u64),
            UserPreference::TabSize => value.as_u64() == Some(4u64),
            UserPreference::Pad => {
                let v = value.as_u64();
                if flags.contains(UserPrefsFlags::COMPACT_VIEW()) {
                    v == Some(0u64)
                } else {
                    v == Some(16u64)
                }
            },
            _ => false,
        }
    }

    fn flags_from(value: Option<u64>) -> (r: UserPrefsFlags) {
        match value {
            Some(v) => UserPrefsFlags::from(v),
            None => UserPrefsFlags::default(),
        }
    }

    fn same_field(&self, other: &UserPreference) -> (r: bool) {
        *self == *other
    }
}

/// The name of a field as it appears in preference maps.
pub open spec fn user_pref_name(p: UserPreference) -> Seq<char> {
    match p {
        UserPreference::Locale => "locale"@,
        UserPreference::Flags => "flags"@,
        UserPreference::FriendAdd => "friend_add"@,
        UserPreference::Temp => "temp"@,
        UserPreference::ChatFont => "chat_font"@,
        UserPreference::UiFont => "ui_font"@,
        UserPreference::ChatFontSize => "chat_font_size"@,
        UserPreference::UiFontSize => "ui_font_size"@,
        UserPreference::TabSize => "tab_size"@,
        UserPreference::TimeFormat => "time_format"@,
        UserPreference::Pad => "pad"@,
        UserPreference::InvalidField => "invalid_field"@,
    }
}

/// The field that a name stands for in preference maps; any other name stands for
/// `InvalidField`.
pub open spec fn user_pref_of_name(name: Seq<char>) -> UserPreference {
    if name == "locale"@ {
        UserPreference::Locale
    } else if name == "flags"@ {
        UserPreference::Flags
    } else if name == "friend_add"@ {
        UserPreference::FriendAdd
    } else if name == "temp"@ {
        UserPreference::Temp
    } else if name == "chat_font"@ {
        UserPreference::ChatFont
    } else if name == "ui_font"@ {
        UserPreference::UiFont
    } else if name == "chat_font_size"@ {
        UserPreference::ChatFontSize
    } else if name == "ui_font_size"@ {
        UserPreference::UiFontSize
    } else if name == "tab_size"@ {
        UserPreference::TabSize
    } else if name == "time_format"@ {
        UserPreference::TimeFormat
    } else if name == "pad"@ {
        UserPreference::Pad
    } else if name == "invalid_field"@ {
        UserPreference::InvalidField
    } else {
        UserPreference::InvalidField
    }
}

impl UserPreference {
    /// The field that a name stands for in preference maps; any other name stands for
    /// `InvalidField`.
    pub fn from_name(name: &str) -> (r: UserPreference)
        ensures
            r == user_pref_of_name(name@),
    {
        if str_eq(name, "locale") {
            return UserPreference::Locale;
        }
        if str_eq(name, "flags") {
            return UserPreference::Flags;
        }
        if str_eq(name, "friend_add") {
            return UserPreference::FriendAdd;
        }
        if str_eq(name, "temp") {
            return UserPreference::Temp;
        }
        if str_eq(name, "chat_font") {
            return UserPreference::ChatFont;
        }
        if str_eq(name, "ui_font") {
            return UserPreference::UiFont;
        }
        if str_eq(name, "chat_font_size") {
            return UserPreference::ChatFontSize;
        }
        if str_eq(name, "ui_font_size") {
            return UserPreference::UiFontSize;
        }
        if str_eq(name, "tab_size") {
            return UserPreference::TabSize;
        }
        if str_eq(name, "time_format") {
            return UserPreference::TimeFormat;
        }
        if str_eq(name, "pad") {
            return UserPreference::Pad;
        }
        if str_eq(name, "invalid_field") {
            return UserPreference::InvalidField;
        }
        UserPreference::InvalidField
    }

    /// The name of the field as it appears in preference maps.
    pub fn field_name(&self) -> (r: &'static str)
        ensures
            r@ == user_pref_name(*self),
    {
        match *self {
            UserPreference::Locale => "locale",
            UserPreference::Flags => "flags",
            UserPreference::FriendAdd => "friend_add",
            UserPreference::Temp => "temp",
            UserPreference::ChatFont => "chat_font",
            UserPreference::UiFont => "ui_font",
            UserPreference::ChatFontSize => "chat_font_size",
            UserPreference::UiFontSize => "ui_font_size",
            UserPreference::TabSize => "tab_size",
            UserPreference::TimeFormat => "time_format",
            UserPreference::Pad => "pad",
            UserPreference::InvalidField => "invalid_field",
        }
    }
}

/// Preferences of a user.
pub type UserPreferences = PreferenceMap<UserPreference>;

/// An error in the preferences of a user.
pub type UserPreferenceError = PreferenceError<UserPreference>;

/// The default value of every field is a valid value of that field.
pub proof fn law_default_values_validate(field: UserPreference, value: JsonValue, flags: UserPrefsFlags)
    requires
        user_pref_is_default(field, value, flags),
    ensures
        user_pref_validate(field, value) == Ok::<(), PreferenceError<UserPreference>>(()),
{
    if field == UserPreference::Flags {
        assert(((#[verifier::truncate] (0xd4818u64 as i32)) & !0x7fffffi32) == 0) by (bit_vector);
    }
    if field == UserPreference::Temp {
        assert(temp_min_f64_bits() <= temp_default_f64_bits() <= temp_max_f64_bits());
    }
}

/// Who can add a user as a friend is one of four settings, numbered 0 to 3 (no one, friends
/// of friends, server members, anyone): exactly those numbers validate.
pub proof fn law_friend_add_settings(n: u64)
    ensures
        user_pref_validate(UserPreference::FriendAdd, JsonValue::Number(JsonNumber::PosInt(n))) is Ok <==> n < 4,
{
}

/// A field's name stands for that field.
pub proof fn law_user_pref_name_roundtrip(p: UserPreference)
    ensures
        user_pref_of_name(user_pref_name(p)) == p,
{
    reveal_strlit("locale");
    assert("locale"@.len() == 6);
    reveal_strlit("flags");
    assert("flags"@.len() == 5);
    reveal_strlit("friend_add");
    assert("friend_add"@.len() == 10);
    reveal_strlit("temp");
    assert("temp"@.len() == 4);
    reveal_strlit("chat_font");
    assert("chat_font"@.len() == 9);
    reveal_strlit("ui_font");
    assert("ui_font"@.len() == 7);
    reveal_strlit("chat_font_size");
    assert("chat_font_size"@.len() == 14);
    reveal_strlit("ui_font_size");
    assert("ui_font_size"@.len() == 12);
    reveal_strlit("tab_size");
    assert("tab_size"@.len() == 8);
    reveal_strlit("time_format");
    assert("time_format"@.len() == 11);
    reveal_strlit("pad");
    assert("pad"@.len() == 3);
    reveal_strlit("invalid_field");
    assert("invalid_field"@.len() == 13);
}

} // verus!
