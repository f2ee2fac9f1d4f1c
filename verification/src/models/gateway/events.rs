//! Events the server sends over the gateway.

use vstd::prelude::*;

use crate::models::message::EmoteOrEmoji;
use crate::models::party::{Party, PartyMember};
use crate::models::room::Room;
use crate::models::sf::{MessageId, PartyId, RoleId, RoomId, Snowflake, UserId};
use crate::models::user::User;

verus! {

/// Number of milliseconds between heartbeats when the server names none.
pub const DEFAULT_HEARTBEAT_INTERVAL: u32 = 45000u32;

/// Opens a gateway session.
#[derive(Debug, Clone)]
pub struct Hello {
    /// Number of milliseconds between heartbeats
    pub heartbeat_interval: u32,
}

impl Default for Hello {
    /// A heartbeat every 45 seconds.
    fn default() -> (r: Hello)
        ensures
            r.heartbeat_interval == DEFAULT_HEARTBEAT_INTERVAL,
    {
        Hello { heartbeat_interval: DEFAULT_HEARTBEAT_INTERVAL }
    }
}

/// A party the user is in, with the user's own member object.
#[derive(Debug, Clone)]
pub struct ReadyParty {
    pub party: Party,
    /// The user's own member object
    pub me: PartyMember,
}

impl core::ops::Deref for ReadyParty {
    type Target = Party;

    fn deref(&self) -> (r: &Party)
        ensures
            *r == self.party,
    {
        &self.party
    }
}

/// The state of the session once it is identified.
#[derive(Debug, Clone)]
pub struct Ready {
    pub user: User,
    /// The parties the user is in, including DMs.
    pub parties: thin_vec::ThinVec<ReadyParty>,
    /// Contains all rooms the user is in, including DMs.
    pub rooms: thin_vec::ThinVec<Room>,
    /// Gateway session ID, used for resuming sessions
    pub session: Snowflake,
}

/// A user started typing in a room.
#[derive(Debug, Clone)]
pub struct TypingStart {
    pub room_id: RoomId,
    pub party_id: PartyId,
    pub user_id: UserId,
    pub member: PartyMember,
    pub parent: Option<MessageId>,
}

/// A party moved in the user's party list.
#[derive(Debug, Clone, Copy)]
pub struct PartyPositionUpdate {
    pub id: PartyId,
    pub position: i16,
}

/// The presence of a user changed.
#[derive(Debug)]
pub struct UserPresenceEvent {
    pub party_id: Option<PartyId>,
    pub user: User,
}

/// A message was deleted.
#[derive(Debug, Clone, Copy)]
pub struct MessageDeleteEvent {
    pub id: MessageId,
    pub room_id: RoomId,
    pub party_id: PartyId,
}

/// A role was deleted.
#[derive(Debug, Clone, Copy)]
pub struct RoleDeleteEvent {
    pub id: RoleId,
    pub party_id: PartyId,
}

/// A room was deleted.
#[derive(Debug, Clone, Copy)]
pub struct RoomDeleteEvent {
    pub id: RoomId,
    pub party_id: Option<PartyId>,
}

/// A member of a party was added, changed, removed, banned or unbanned.
#[derive(Debug)]
pub struct PartyMemberEvent {
    pub party_id: PartyId,
    pub member: PartyMember,
}

/// A party changed: only its position, or all of it.
#[derive(Debug)]
pub enum PartyUpdateEvent {
    Position(PartyPositionUpdate),
    Full(Party),
}

/// A user added or removed a reaction.
#[derive(Debug)]
pub struct UserReactionEvent {
    pub user_id: UserId,
    pub room_id: RoomId,
    pub party_id: PartyId,
    pub msg_id: MessageId,
    pub member: Option<Box<PartyMember>>,
    pub emote: EmoteOrEmoji,
}

/// The profile of a user changed, in a party or globally.
#[derive(Debug)]
pub struct ProfileUpdateEvent {
    pub party_id: Option<PartyId>,
    pub user: User,
}

} // verus!
