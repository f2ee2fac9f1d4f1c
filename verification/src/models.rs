//! Object data structures used within Lantern.

use vstd::prelude::*;
use vstd::std_specs::cmp::PartialEqSpec;

pub mod asset;
pub mod auth;
pub mod bot;
pub mod config;
pub mod embed;
pub mod emote;
pub mod file;
pub mod gateway;
pub mod invite;
pub mod message;
pub mod nullable;
pub mod party;
pub mod permission;
pub mod presence;
pub mod role;
pub mod room;
pub mod session;
pub mod sf;
pub mod stats;
pub mod thread;
pub mod user;
pub mod user_prefs;

pub use asset::AssetFlags;
pub use auth::{AuthToken, BearerToken, BotToken, InvalidAuthToken};
pub use bot::SplitBotToken;
pub use config::{HCaptchaSiteKey, ServerConfig, ServerLimits};
pub use embed::{
    BasicEmbedMedia, Embed, EmbedAuthor, EmbedField, EmbedFlags, EmbedFooter, EmbedMedia, EmbedProvider, EmbedType,
    EmbedV1, UrlSignature,
};
pub use emote::{CustomEmote, Emote, EmoteFlags};
pub use file::{File, FileUpload};
pub use invite::Invite;
pub use message::{
    Attachment, EmoteOrEmoji, Message, MessageFlags, MessageKind, Reaction, ReactionFull, ReactionShorthand,
};
pub use nullable::Nullable;
pub use party::{
    PartialParty, PartialPartyMember, Party, PartyFlags, PartyMember, PartyMemberFlags, PartyPreferences,
    PartyPrefsFlags, PinFolder, PinFolderFlags,
};
pub use permission::{Overwrite, Permissions};
pub use presence::{Activity, AnyActivity, UserPresence, UserPresenceFlags};
pub use role::{Role, RoleFlags};
pub use room::{FullRoom, Room, RoomFlags, RoomKind};
pub use session::{AnonymousSession, Session};
pub use sf::{
    EmoteId, FileId, FolderId, InviteId, MessageId, PartyId, RoleId, RoomId, Snowflake, ThreadId, UserId,
};
pub use stats::{RoomStatistics, Statistics};
pub use thread::{Thread, ThreadFlags};
pub use user::{DateOfBirth, ElevationLevel, Friend, FriendFlags, User, UserFlags, UserProfile, UserProfileBits};
pub use user_prefs::{Font, Locale, UserPreference, UserPreferenceError, UserPreferences, UserPrefsFlags};

verus! {

/// Encrypted Snowflake, used for obfuscating IDs in URLs.
///
/// Used for certain asset IDs, such as avatars.
pub type EncryptedSnowflake = crate::util::fixed::FixedStr<22>;

/// Seed of a hash builder; each new builder takes the next seed.
#[derive(Debug, Clone, Copy, PartialEq, Eq, Structural)]
pub struct FxRandomState2(usize);

impl FxRandomState2 {
    /// The hash builder of the given seed.
    pub fn with_seed(seed: usize) -> (r: FxRandomState2)
        ensures
            r.seed() == seed,
    {
        FxRandomState2(seed)
    }

    /// The seed of the hash builder.
    pub closed spec fn seed(self) -> usize {
        self.0
    }
}

/// Hasher of the `rustc-hash` crate.
#[verifier::external_type_specification]
#[verifier::external_body]
pub struct ExFxHasher(rustc_hash::FxHasher);

/// The hasher that `FxHasher::with_seed` starts from a seed.
pub uninterp spec fn fx_hasher_of_seed(seed: usize) -> rustc_hash::FxHasher;

/// Calls `FxHasher::with_seed`, which starts a hasher whose state is the seed: the same seed
/// always gives the same hasher. Nothing more is stated of the hasher, which this library
/// cannot read.
#[verifier::external_body]
fn fx_hasher_with_seed(seed: usize) -> (r: rustc_hash::FxHasher)
    ensures
        r == fx_hasher_of_seed(seed),
{
    rustc_hash::FxHasher::with_seed(seed)
}

impl core::hash::BuildHasher for FxRandomState2 {
    type Hasher = rustc_hash::FxHasher;

    /// A hasher started from the seed.
    fn build_hasher(&self) -> (r: rustc_hash::FxHasher)
        ensures
            r == fx_hasher_of_seed(self.seed()),
    {
        fx_hasher_with_seed(self.0)
    }
}

/// Directional search query
#[derive(Debug, Clone, Copy, PartialEq, Eq, Structural, Hash)]
pub enum Cursor {
    Exact(Snowflake),
    After(Snowflake),
    Before(Snowflake),
}

/// Whether the flag is false.
pub fn is_false(value: &bool) -> (r: bool)
    ensures
        r == !*value,
{
    !*value
}

/// Whether the flag is true.
pub fn is_true(value: &bool) -> (r: bool)
    ensures
        r == *value,
{
    *value
}

/// The value `true`, the default of flags that are on unless given.
pub fn default_true() -> (r: bool)
    ensures
        r,
{
    true
}

/// Whether the value equals the default value of its type.
pub fn is_default<T: Default + PartialEq>(value: &T) -> (r: bool)
    ensures
        T::obeys_eq_spec() ==> exists|d: T| call_ensures(T::default, (), d) && r == value.eq_spec(&d),
{
    let d = T::default();
    let r = *value == d;
    proof {
        assert(call_ensures(T::default, (), d));
    }
    r
}

/// Values that can be empty.
pub trait IsEmpty {
    /// Whether the value is empty.
    spec fn spec_is_empty(&self) -> bool;

    fn _is_empty(&self) -> (r: bool)
        ensures
            r == self.spec_is_empty(),
    ;
}

impl<T> IsEmpty for Vec<T> {
    open spec fn spec_is_empty(&self) -> bool {
        self@.len() == 0
    }

    fn _is_empty(&self) -> (r: bool) {
        self.is_empty()
    }
}

impl<'a, T> IsEmpty for &'a [T] {
    open spec fn spec_is_empty(&self) -> bool {
        (*self)@.len() == 0
    }

    fn _is_empty(&self) -> (r: bool) {
        (*self).len() == 0
    }
}

impl IsEmpty for smol_str::SmolStr {
    open spec fn spec_is_empty(&self) -> bool {
        crate::ext::smol_str_chars(*self).len() == 0
    }

    fn _is_empty(&self) -> (r: bool) {
        crate::ext::smol_str_is_empty(self)
    }
}

impl IsEmpty for String {
    open spec fn spec_is_empty(&self) -> bool {
        self@.len() == 0
    }

    fn _is_empty(&self) -> (r: bool) {
        self.as_str().unicode_len() == 0
    }
}

/// Whether the value is absent or empty.
pub fn is_none_or_empty<T: IsEmpty>(value: &Option<T>) -> (r: bool)
    ensures
        r == match *value {
            None => true,
            Some(v) => v.spec_is_empty(),
        },
{
    match value {
        None => true,
        Some(v) => v._is_empty(),
    }
}

} // verus!
