//! Payload structs of the messages the server sends.

use vstd::prelude::*;

use std::sync::Arc;

use super::RoomStub;
use crate::models::gateway::events::{
    Hello, MessageDeleteEvent, PartyMemberEvent, PartyUpdateEvent, ProfileUpdateEvent, Ready, RoleDeleteEvent,
    RoomDeleteEvent, TypingStart, UserPresenceEvent, UserReactionEvent,
};
use crate::models::message::Message as RoomMessage;
use crate::models::party::Party;
use crate::models::role::Role;
use crate::models::sf::{PartyId, UserId};
use crate::models::user::{Friend, User};

verus! {

/// The Hello message initiates the gateway session and expects a [`ClientMsg::Identify`] in return.
///
/// Payload of [`ServerMsg::Hello`](super::ServerMsg::Hello).
#[derive(Debug)]
pub struct HelloPayload {
    pub inner: Hello,
}

/// Acknowledgement of a heartbeat
///
/// Payload of [`ServerMsg::HeartbeatAck`](super::ServerMsg::HeartbeatAck).
#[derive(Debug, PartialEq, Eq, Structural)]
pub struct HeartbeatAckPayload {}

impl Default for HeartbeatAckPayload {
    fn default() -> (r: HeartbeatAckPayload)
        ensures
            r == (HeartbeatAckPayload {}),
    {
        HeartbeatAckPayload {}
    }
}

/// Payload of [`ServerMsg::Ready`](super::ServerMsg::Ready).
#[derive(Debug)]
pub struct ReadyPayload {
    pub inner: Arc<Ready>,
}

impl core::ops::Deref for ReadyPayload {
    type Target = Arc<Ready>;

    fn deref(&self) -> (r: &Arc<Ready>)
        ensures
            *r == self.inner,
    {
        &self.inner
    }
}

/// Sent when the session is no longer valid
///
/// Payload of [`ServerMsg::InvalidSession`](super::ServerMsg::InvalidSession).
#[derive(Debug, PartialEq, Eq, Structural)]
pub struct InvalidSessionPayload {}

impl Default for InvalidSessionPayload {
    fn default() -> (r: InvalidSessionPayload)
        ensures
            r == (InvalidSessionPayload {}),
    {
        InvalidSessionPayload {}
    }
}

/// Payload of [`ServerMsg::PartyCreate`](super::ServerMsg::PartyCreate).
#[derive(Debug)]
pub struct PartyCreatePayload {
    pub inner: Arc<Party>,
}

impl core::ops::Deref for PartyCreatePayload {
    type Target = Arc<Party>;

    fn deref(&self) -> (r: &Arc<Party>)
        ensures
            *r == self.inner,
    {
        &self.inner
    }
}

/// Payload of [`ServerMsg::PartyUpdate`](super::ServerMsg::PartyUpdate).
#[derive(Debug)]
pub struct PartyUpdatePayload {
    pub inner: Arc<PartyUpdateEvent>,
}

impl core::ops::Deref for PartyUpdatePayload {
    type Target = Arc<PartyUpdateEvent>;

    fn deref(&self) -> (r: &Arc<PartyUpdateEvent>)
        ensures
            *r == self.inner,
    {
        &self.inner
    }
}

/// Payload of [`ServerMsg::PartyDelete`](super::ServerMsg::PartyDelete).
#[derive(Debug)]
pub struct PartyDeletePayload {
    pub id: PartyId,
}

/// Payload of [`ServerMsg::RoleCreate`](super::ServerMsg::RoleCreate).
#[derive(Debug)]
pub struct RoleCreatePayload {
    pub inner: Arc<Role>,
}

impl core::ops::Deref for RoleCreatePayload {
    type Target = Arc<Role>;

    fn deref(&self) -> (r: &Arc<Role>)
        ensures
            *r == self.inner,
    {
        &self.inner
    }
}

/// Payload of [`ServerMsg::RoleUpdate`](super::ServerMsg::RoleUpdate).
#[derive(Debug)]
pub struct RoleUpdatePayload {
    pub inner: Arc<Role>,
}

impl core::ops::Deref for RoleUpdatePayload {
    type Target = Arc<Role>;

    fn deref(&self) -> (r: &Arc<Role>)
        ensures
            *r == self.inner,
    {
        &self.inner
    }
}

/// Payload of [`ServerMsg::RoleDelete`](super::ServerMsg::RoleDelete).
#[derive(Debug)]
pub struct RoleDeletePayload {
    pub inner: Arc<RoleDeleteEvent>,
}

impl core::ops::Deref for RoleDeletePayload {
    type Target = Arc<RoleDeleteEvent>;

    fn deref(&self) -> (r: &Arc<RoleDeleteEvent>)
        ensures
            *r == self.inner,
    {
        &self.inner
    }
}

/// Payload of [`ServerMsg::MemberAdd`](super::ServerMsg::MemberAdd).
#[derive(Debug)]
pub struct MemberAddPayload {
    pub inner: Arc<PartyMemberEvent>,
}

impl core::ops::Deref for MemberAddPayload {
    type Target = Arc<PartyMemberEvent>;

    fn deref(&self) -> (r: &Arc<PartyMemberEvent>)
        ensures
            *r == self.inner,
    {
        &self.inner
    }
}

/// Payload of [`ServerMsg::MemberUpdate`](super::ServerMsg::MemberUpdate).
#[derive(Debug)]
pub struct MemberUpdatePayload {
    pub inner: Arc<PartyMemberEvent>,
}

impl core::ops::Deref for MemberUpdatePayload {
    type Target = Arc<PartyMemberEvent>;

    fn deref(&self) -> (r: &Arc<PartyMemberEvent>)
        ensures
            *r == self.inner,
    {
        &self.inner
    }
}

/// Payload of [`ServerMsg::MemberRemove`](super::ServerMsg::MemberRemove).
#[derive(Debug)]
pub struct MemberRemovePayload {
    pub inner: Arc<PartyMemberEvent>,
}

impl core::ops::Deref for MemberRemovePayload {
    type Target = Arc<PartyMemberEvent>;

    fn deref(&self) -> (r: &Arc<PartyMemberEvent>)
        ensures
            *r == self.inner,
    {
        &self.inner
    }
}

/// Payload of [`ServerMsg::MemberBan`](super::ServerMsg::MemberBan).
#[derive(Debug)]
pub struct MemberBanPayload {
    pub inner: Arc<PartyMemberEvent>,
}

impl core::ops::Deref for MemberBanPayload {
    type Target = Arc<PartyMemberEvent>;

    fn deref(&self) -> (r: &Arc<PartyMemberEvent>)
        ensures
            *r == self.inner,
    {
        &self.inner
    }
}

/// Payload of [`ServerMsg::MemberUnban`](super::ServerMsg::MemberUnban).
#[derive(Debug)]
pub struct MemberUnbanPayload {
    pub inner: Arc<PartyMemberEvent>,
}

impl core::ops::Deref for MemberUnbanPayload {
    type Target = Arc<PartyMemberEvent>;

    fn deref(&self) -> (r: &Arc<PartyMemberEvent>)
        ensures
            *r == self.inner,
    {
        &self.inner
    }
}

/// Payload of [`ServerMsg::RoomCreate`](super::ServerMsg::RoomCreate).
#[derive(Debug)]
pub struct RoomCreatePayload {
    pub inner: Arc<RoomStub>,
}

impl core::ops::Deref for RoomCreatePayload {
    type Target = Arc<RoomStub>;

    fn deref(&self) -> (r: &Arc<RoomStub>)
        ensures
            *r == self.inner,
    {
        &self.inner
    }
}

/// Payload of [`ServerMsg::RoomUpdate`](super::ServerMsg::RoomUpdate).
#[derive(Debug)]
pub struct RoomUpdatePayload {
    pub inner: Arc<RoomStub>,
}

impl core::ops::Deref for RoomUpdatePayload {
    type Target = Arc<RoomStub>;

    fn deref(&self) -> (r: &Arc<RoomStub>)
        ensures
            *r == self.inner,
    {
        &self.inner
    }
}

/// Payload of [`ServerMsg::RoomDelete`](super::ServerMsg::RoomDelete).
#[derive(Debug)]
pub struct RoomDeletePayload {
    pub inner: Arc<RoomDeleteEvent>,
}

impl core::ops::Deref for RoomDeletePayload {
    type Target = Arc<RoomDeleteEvent>;

    fn deref(&self) -> (r: &Arc<RoomDeleteEvent>)
        ensures
            *r == self.inner,
    {
        &self.inner
    }
}

/// Payload of [`ServerMsg::RoomPinsUpdate`](super::ServerMsg::RoomPinsUpdate).
#[derive(Debug)]
pub struct RoomPinsUpdatePayload {}

/// Payload of [`ServerMsg::MessageCreate`](super::ServerMsg::MessageCreate).
#[derive(Debug)]
pub struct MessageCreatePayload {
    pub inner: Arc<RoomMessage>,
}

impl core::ops::Deref for MessageCreatePayload {
    type Target = Arc<RoomMessage>;

    fn deref(&self) -> (r: &Arc<RoomMessage>)
        ensures
            *r == self.inner,
    {
        &self.inner
    }
}

/// Payload of [`ServerMsg::MessageUpdate`](super::ServerMsg::MessageUpdate).
#[derive(Debug)]
pub struct MessageUpdatePayload {
    pub inner: Arc<RoomMessage>,
}

impl core::ops::Deref for MessageUpdatePayload {
    type Target = Arc<RoomMessage>;

    fn deref(&self) -> (r: &Arc<RoomMessage>)
        ensures
            *r == self.inner,
    {
        &self.inner
    }
}

/// Payload of [`ServerMsg::MessageDelete`](super::ServerMsg::MessageDelete).
#[derive(Debug)]
pub struct MessageDeletePayload {
    pub inner: Arc<MessageDeleteEvent>,
}

impl core::ops::Deref for MessageDeletePayload {
    type Target = Arc<MessageDeleteEvent>;

    fn deref(&self) -> (r: &Arc<MessageDeleteEvent>)
        ensures
            *r == self.inner,
    {
        &self.inner
    }
}

/// Payload of [`ServerMsg::MessageReactionAdd`](super::ServerMsg::MessageReactionAdd).
#[derive(Debug)]
pub struct MessageReactionAddPayload {
    pub inner: Arc<UserReactionEvent>,
}

impl core::ops::Deref for MessageReactionAddPayload {
    type Target = Arc<UserReactionEvent>;

    fn deref(&self) -> (r: &Arc<UserReactionEvent>)
        ensures
            *r == self.inner,
    {
        &self.inner
    }
}

/// Payload of [`ServerMsg::MessageReactionRemove`](super::ServerMsg::MessageReactionRemove).
#[derive(Debug)]
pub struct MessageReactionRemovePayload {
    pub inner: Arc<UserReactionEvent>,
}

impl core::ops::Deref for MessageReactionRemovePayload {
    type Target = Arc<UserReactionEvent>;

    fn deref(&self) -> (r: &Arc<UserReactionEvent>)
        ensures
            *r == self.inner,
    {
        &self.inner
    }
}

/// Payload of [`ServerMsg::MessageReactionRemoveAll`](super::ServerMsg::MessageReactionRemoveAll).
#[derive(Debug)]
pub struct MessageReactionRemoveAllPayload {}

/// Payload of [`ServerMsg::MessageReactionRemoveEmote`](super::ServerMsg::MessageReactionRemoveEmote).
#[derive(Debug)]
pub struct MessageReactionRemoveEmotePayload {}

/// Payload of [`ServerMsg::PresenceUpdate`](super::ServerMsg::PresenceUpdate).
#[derive(Debug)]
pub struct PresenceUpdatePayload {
    pub inner: Arc<UserPresenceEvent>,
}

impl core::ops::Deref for PresenceUpdatePayload {
    type Target = Arc<UserPresenceEvent>;

    fn deref(&self) -> (r: &Arc<UserPresenceEvent>)
        ensures
            *r == self.inner,
    {
        &self.inner
    }
}

/// Payload of [`ServerMsg::TypingStart`](super::ServerMsg::TypingStart).
#[derive(Debug)]
pub struct TypingStartPayload {
    pub inner: Arc<TypingStart>,
}

impl core::ops::Deref for TypingStartPayload {
    type Target = Arc<TypingStart>;

    fn deref(&self) -> (r: &Arc<TypingStart>)
        ensures
            *r == self.inner,
    {
        &self.inner
    }
}

/// Payload of [`ServerMsg::UserUpdate`](super::ServerMsg::UserUpdate).
#[derive(Debug)]
pub struct UserUpdatePayload {
    pub user: Arc<User>,
}

/// Payload of [`ServerMsg::ProfileUpdate`](super::ServerMsg::ProfileUpdate).
#[derive(Debug)]
pub struct ProfileUpdatePayload {
    pub inner: Arc<ProfileUpdateEvent>,
}

impl core::ops::Deref for ProfileUpdatePayload {
    type Target = Arc<ProfileUpdateEvent>;

    fn deref(&self) -> (r: &Arc<ProfileUpdateEvent>)
        ensures
            *r == self.inner,
    {
        &self.inner
    }
}

/// Payload of [`ServerMsg::RelationAdd`](super::ServerMsg::RelationAdd).
#[derive(Debug)]
pub struct RelationAddPayload {
    pub inner: Arc<Friend>,
}

impl core::ops::Deref for RelationAddPayload {
    type Target = Arc<Friend>;

    fn deref(&self) -> (r: &Arc<Friend>)
        ensures
            *r == self.inner,
    {
        &self.inner
    }
}

/// Payload of [`ServerMsg::RelationRemove`](super::ServerMsg::RelationRemove).
#[derive(Debug)]
pub struct RelationRemovePayload {
    pub user_id: UserId,
}

} // verus!
