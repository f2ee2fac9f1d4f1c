//! Messages exchanged over the gateway, each an opcode with a payload.

use vstd::prelude::*;

use std::sync::Arc;

use super::commands::{Identify, SetPresence};
use super::events::{
    Hello, MessageDeleteEvent, PartyMemberEvent, PartyUpdateEvent, ProfileUpdateEvent, Ready, RoleDeleteEvent,
    RoomDeleteEvent, TypingStart, UserPresenceEvent, UserReactionEvent,
};
use super::Intent;
use crate::models::message::Message as RoomMessage;
use crate::models::party::Party;
use crate::models::role::Role;
use crate::models::sf::{PartyId, Snowflake, UserId};
use crate::models::user::{Friend, User};

pub mod client_msg_payloads;
pub mod server_msg_payloads;

verus! {

/// Payload of the room messages of [`ServerMsg`], which carry no room data yet.
pub type RoomStub = ();

/// OpCodes for [`ServerMsg`]
#[derive(Debug, Clone, Copy, PartialEq, Eq, Structural, Hash)]
pub enum ServerMsgOpcode {
    Hello,
    HeartbeatAck,
    Ready,
    InvalidSession,
    PartyCreate,
    PartyUpdate,
    PartyDelete,
    RoleCreate,
    RoleUpdate,
    RoleDelete,
    MemberAdd,
    MemberUpdate,
    MemberRemove,
    MemberBan,
    MemberUnban,
    RoomCreate,
    RoomUpdate,
    RoomDelete,
    RoomPinsUpdate,
    MessageCreate,
    MessageUpdate,
    MessageDelete,
    MessageReactionAdd,
    MessageReactionRemove,
    MessageReactionRemoveAll,
    MessageReactionRemoveEmote,
    PresenceUpdate,
    TypingStart,
    UserUpdate,
    ProfileUpdate,
    RelationAdd,
    RelationRemove,
}

/// The number that stands for an opcode of [`ServerMsg`] on the wire.
pub open spec fn server_msg_opcode_code(op: ServerMsgOpcode) -> u8 {
    match op {
        ServerMsgOpcode::Hello => 0u8,
        ServerMsgOpcode::HeartbeatAck => 1u8,
        ServerMsgOpcode::Ready => 2u8,
        ServerMsgOpcode::InvalidSession => 3u8,
        ServerMsgOpcode::PartyCreate => 4u8,
        ServerMsgOpcode::PartyUpdate => 5u8,
        ServerMsgOpcode::PartyDelete => 6u8,
        ServerMsgOpcode::RoleCreate => 7u8,
        ServerMsgOpcode::RoleUpdate => 8u8,
        ServerMsgOpcode::RoleDelete => 9u8,
        ServerMsgOpcode::MemberAdd => 10u8,
        ServerMsgOpcode::MemberUpdate => 11u8,
        ServerMsgOpcode::MemberRemove => 12u8,
        ServerMsgOpcode::MemberBan => 13u8,
        ServerMsgOpcode::MemberUnban => 14u8,
        ServerMsgOpcode::RoomCreate => 15u8,
        ServerMsgOpcode::RoomUpdate => 16u8,
        ServerMsgOpcode::RoomDelete => 17u8,
        ServerMsgOpcode::RoomPinsUpdate => 18u8,
        ServerMsgOpcode::MessageCreate => 19u8,
        ServerMsgOpcode::MessageUpdate => 20u8,
        ServerMsgOpcode::MessageDelete => 21u8,
        ServerMsgOpcode::MessageReactionAdd => 22u8,
        ServerMsgOpcode::MessageReactionRemove => 23u8,
        ServerMsgOpcode::MessageReactionRemoveAll => 24u8,
        ServerMsgOpcode::MessageReactionRemoveEmote => 25u8,
        ServerMsgOpcode::PresenceUpdate => 26u8,
        ServerMsgOpcode::TypingStart => 27u8,
        ServerMsgOpcode::UserUpdate => 28u8,
        ServerMsgOpcode::ProfileUpdate => 29u8,
        ServerMsgOpcode::RelationAdd => 30u8,
        ServerMsgOpcode::RelationRemove => 31u8,
    }
}

/// The opcode of [`ServerMsg`] that a number on the wire stands for, if any.
pub open spec fn server_msg_opcode_from_code(code: u8) -> Option<ServerMsgOpcode> {
    if code == 0u8 {
        Some(ServerMsgOpcode::Hello)
    } else if code == 1u8 {
        Some(ServerMsgOpcode::HeartbeatAck)
    } else if code == 2u8 {
        Some(ServerMsgOpcode::Ready)
    } else if code == 3u8 {
        Some(ServerMsgOpcode::InvalidSession)
    } else if code == 4u8 {
        Some(ServerMsgOpcode::PartyCreate)
    } else if code == 5u8 {
        Some(ServerMsgOpcode::PartyUpdate)
    } else if code == 6u8 {
        Some(ServerMsgOpcode::PartyDelete)
    } else if code == 7u8 {
        Some(ServerMsgOpcode::RoleCreate)
    } else if code == 8u8 {
        Some(ServerMsgOpcode::RoleUpdate)
    } else if code == 9u8 {
        Some(ServerMsgOpcode::RoleDelete)
    } else if code == 10u8 {
        Some(ServerMsgOpcode::MemberAdd)
    } else if code == 11u8 {
        Some(ServerMsgOpcode::MemberUpdate)
    } else if code == 12u8 {
        Some(ServerMsgOpcode::MemberRemove)
    } else if code == 13u8 {
        Some(ServerMsgOpcode::MemberBan)
    } else if code == 14u8 {
        Some(ServerMsgOpcode::MemberUnban)
    } else if code == 15u8 {
        Some(ServerMsgOpcode::RoomCreate)
    } else if code == 16u8 {
        Some(ServerMsgOpcode::RoomUpdate)
    } else if code == 17u8 {
        Some(ServerMsgOpcode::RoomDelete)
    } else if code == 18u8 {
        Some(ServerMsgOpcode::RoomPinsUpdate)
    } else if code == 19u8 {
        Some(ServerMsgOpcode::MessageCreate)
    } else if code == 20u8 {
        Some(ServerMsgOpcode::MessageUpdate)
    } else if code == 21u8 {
        Some(ServerMsgOpcode::MessageDelete)
    } else if code == 22u8 {
        Some(ServerMsgOpcode::MessageReactionAdd)
    } else if code == 23u8 {
        Some(ServerMsgOpcode::MessageReactionRemove)
    } else if code == 24u8 {
        Some(ServerMsgOpcode::MessageReactionRemoveAll)
    } else if code == 25u8 {
        Some(ServerMsgOpcode::MessageReactionRemoveEmote)
    } else if code == 26u8 {
        Some(ServerMsgOpcode::PresenceUpdate)
    } else if code == 27u8 {
        Some(ServerMsgOpcode::TypingStart)
    } else if code == 28u8 {
        Some(ServerMsgOpcode::UserUpdate)
    } else if code == 29u8 {
        Some(ServerMsgOpcode::ProfileUpdate)
    } else if code == 30u8 {
        Some(ServerMsgOpcode::RelationAdd)
    } else if code == 31u8 {
        Some(ServerMsgOpcode::RelationRemove)
    } else {
        None
    }
}

impl ServerMsgOpcode {
    /// The number that stands for the opcode on the wire.
    pub fn code(&self) -> (r: u8)
        ensures
            r == server_msg_opcode_code(*self),
    {
        match self {
            ServerMsgOpcode::Hello => 0u8,
            ServerMsgOpcode::HeartbeatAck => 1u8,
            ServerMsgOpcode::Ready => 2u8,
            ServerMsgOpcode::InvalidSession => 3u8,
            ServerMsgOpcode::PartyCreate => 4u8,
            ServerMsgOpcode::PartyUpdate => 5u8,
            ServerMsgOpcode::PartyDelete => 6u8,
            ServerMsgOpcode::RoleCreate => 7u8,
            ServerMsgOpcode::RoleUpdate => 8u8,
            ServerMsgOpcode::RoleDelete => 9u8,
            ServerMsgOpcode::MemberAdd => 10u8,
            ServerMsgOpcode::MemberUpdate => 11u8,
            ServerMsgOpcode::MemberRemove => 12u8,
            ServerMsgOpcode::MemberBan => 13u8,
            ServerMsgOpcode::MemberUnban => 14u8,
            ServerMsgOpcode::RoomCreate => 15u8,
            ServerMsgOpcode::RoomUpdate => 16u8,
            ServerMsgOpcode::RoomDelete => 17u8,
            ServerMsgOpcode::RoomPinsUpdate => 18u8,
            ServerMsgOpcode::MessageCreate => 19u8,
            ServerMsgOpcode::MessageUpdate => 20u8,
            ServerMsgOpcode::MessageDelete => 21u8,
            ServerMsgOpcode::MessageReactionAdd => 22u8,
            ServerMsgOpcode::MessageReactionRemove => 23u8,
            ServerMsgOpcode::MessageReactionRemoveAll => 24u8,
            ServerMsgOpcode::MessageReactionRemoveEmote => 25u8,
            ServerMsgOpcode::PresenceUpdate => 26u8,
            ServerMsgOpcode::TypingStart => 27u8,
            ServerMsgOpcode::UserUpdate => 28u8,
            ServerMsgOpcode::ProfileUpdate => 29u8,
            ServerMsgOpcode::RelationAdd => 30u8,
            ServerMsgOpcode::RelationRemove => 31u8,
        }
    }

    /// The opcode a number on the wire stands for; `None` past the last opcode.
    pub fn from_code(code: u8) -> (r: Option<ServerMsgOpcode>)
        ensures
            r == server_msg_opcode_from_code(code),
    {
        match code {
            0u8 => Some(ServerMsgOpcode::Hello),
            1u8 => Some(ServerMsgOpcode::HeartbeatAck),
            2u8 => Some(ServerMsgOpcode::Ready),
            3u8 => Some(ServerMsgOpcode::InvalidSession),
            4u8 => Some(ServerMsgOpcode::PartyCreate),
            5u8 => Some(ServerMsgOpcode::PartyUpdate),
            6u8 => Some(ServerMsgOpcode::PartyDelete),
            7u8 => Some(ServerMsgOpcode::RoleCreate),
            8u8 => Some(ServerMsgOpcode::RoleUpdate),
            9u8 => Some(ServerMsgOpcode::RoleDelete),
            10u8 => Some(ServerMsgOpcode::MemberAdd),
            11u8 => Some(ServerMsgOpcode::MemberUpdate),
            12u8 => Some(ServerMsgOpcode::MemberRemove),
            13u8 => Some(ServerMsgOpcode::MemberBan),
            14u8 => Some(ServerMsgOpcode::MemberUnban),
            15u8 => Some(ServerMsgOpcode::RoomCreate),
            16u8 => Some(ServerMsgOpcode::RoomUpdate),
            17u8 => Some(ServerMsgOpcode::RoomDelete),
            18u8 => Some(ServerMsgOpcode::RoomPinsUpdate),
            19u8 => Some(ServerMsgOpcode::MessageCreate),
            20u8 => Some(ServerMsgOpcode::MessageUpdate),
            21u8 => Some(ServerMsgOpcode::MessageDelete),
            22u8 => Some(ServerMsgOpcode::MessageReactionAdd),
            23u8 => Some(ServerMsgOpcode::MessageReactionRemove),
            24u8 => Some(ServerMsgOpcode::MessageReactionRemoveAll),
            25u8 => Some(ServerMsgOpcode::MessageReactionRemoveEmote),
            26u8 => Some(ServerMsgOpcode::PresenceUpdate),
            27u8 => Some(ServerMsgOpcode::TypingStart),
            28u8 => Some(ServerMsgOpcode::UserUpdate),
            29u8 => Some(ServerMsgOpcode::ProfileUpdate),
            30u8 => Some(ServerMsgOpcode::RelationAdd),
            31u8 => Some(ServerMsgOpcode::RelationRemove),
            _ => None,
        }
    }
}

/// Every opcode of [`ServerMsg`] is read back from its number, and every number that
/// reads back as an opcode is that opcode's number; the numbers are those below 32.
pub proof fn law_server_msg_opcode_code_roundtrip(op: ServerMsgOpcode, code: u8)
    ensures
        server_msg_opcode_from_code(server_msg_opcode_code(op)) == Some(op),
        server_msg_opcode_code(op) < 32,
        server_msg_opcode_from_code(code) matches Some(o) ==> server_msg_opcode_code(o) == code,
        server_msg_opcode_from_code(code) is Some <==> code < 32,
{
}

/// Messages send from the server to the client
#[derive(Debug)]
pub enum ServerMsg {
    Hello(server_msg_payloads::HelloPayload),
    HeartbeatAck(server_msg_payloads::HeartbeatAckPayload),
    Ready(server_msg_payloads::ReadyPayload),
    InvalidSession(server_msg_payloads::InvalidSessionPayload),
    PartyCreate(server_msg_payloads::PartyCreatePayload),
    PartyUpdate(server_msg_payloads::PartyUpdatePayload),
    PartyDelete(server_msg_payloads::PartyDeletePayload),
    RoleCreate(server_msg_payloads::RoleCreatePayload),
    RoleUpdate(server_msg_payloads::RoleUpdatePayload),
    RoleDelete(server_msg_payloads::RoleDeletePayload),
    MemberAdd(server_msg_payloads::MemberAddPayload),
    MemberUpdate(server_msg_payloads::MemberUpdatePayload),
    MemberRemove(server_msg_payloads::MemberRemovePayload),
    MemberBan(server_msg_payloads::MemberBanPayload),
    MemberUnban(server_msg_payloads::MemberUnbanPayload),
    RoomCreate(server_msg_payloads::RoomCreatePayload),
    RoomUpdate(server_msg_payloads::RoomUpdatePayload),
    RoomDelete(server_msg_payloads::RoomDeletePayload),
    RoomPinsUpdate(server_msg_payloads::RoomPinsUpdatePayload),
    MessageCreate(server_msg_payloads::MessageCreatePayload),
    MessageUpdate(server_msg_payloads::MessageUpdatePayload),
    MessageDelete(server_msg_payloads::MessageDeletePayload),
    MessageReactionAdd(server_msg_payloads::MessageReactionAddPayload),
    MessageReactionRemove(server_msg_payloads::MessageReactionRemovePayload),
    MessageReactionRemoveAll(server_msg_payloads::MessageReactionRemoveAllPayload),
    MessageReactionRemoveEmote(server_msg_payloads::MessageReactionRemoveEmotePayload),
    PresenceUpdate(server_msg_payloads::PresenceUpdatePayload),
    TypingStart(server_msg_payloads::TypingStartPayload),
    UserUpdate(server_msg_payloads::UserUpdatePayload),
    ProfileUpdate(server_msg_payloads::ProfileUpdatePayload),
    RelationAdd(server_msg_payloads::RelationAddPayload),
    RelationRemove(server_msg_payloads::RelationRemovePayload),
}

/// The opcode of a message of [`ServerMsg`].
pub open spec fn server_msg_opcode(msg: ServerMsg) -> ServerMsgOpcode {
    match msg {
        ServerMsg::Hello(_) => ServerMsgOpcode::Hello,
        ServerMsg::HeartbeatAck(_) => ServerMsgOpcode::HeartbeatAck,
        ServerMsg::Ready(_) => ServerMsgOpcode::Ready,
        ServerMsg::InvalidSession(_) => ServerMsgOpcode::InvalidSession,
        ServerMsg::PartyCreate(_) => ServerMsgOpcode::PartyCreate,
        ServerMsg::PartyUpdate(_) => ServerMsgOpcode::PartyUpdate,
        ServerMsg::PartyDelete(_) => ServerMsgOpcode::PartyDelete,
        ServerMsg::RoleCreate(_) => ServerMsgOpcode::RoleCreate,
        ServerMsg::RoleUpdate(_) => ServerMsgOpcode::RoleUpdate,
        ServerMsg::RoleDelete(_) => ServerMsgOpcode::RoleDelete,
        ServerMsg::MemberAdd(_) => ServerMsgOpcode::MemberAdd,
        ServerMsg::MemberUpdate(_) => ServerMsgOpcode::MemberUpdate,
        ServerMsg::MemberRemove(_) => ServerMsgOpcode::MemberRemove,
        ServerMsg::MemberBan(_) => ServerMsgOpcode::MemberBan,
        ServerMsg::MemberUnban(_) => ServerMsgOpcode::MemberUnban,
        ServerMsg::RoomCreate(_) => ServerMsgOpcode::RoomCreate,
        ServerMsg::RoomUpdate(_) => ServerMsgOpcode::RoomUpdate,
        ServerMsg::RoomDelete(_) => ServerMsgOpcode::RoomDelete,
        ServerMsg::RoomPinsUpdate(_) => ServerMsgOpcode::RoomPinsUpdate,
        ServerMsg::MessageCreate(_) => ServerMsgOpcode::MessageCreate,
        ServerMsg::MessageUpdate(_) => ServerMsgOpcode::MessageUpdate,
        ServerMsg::MessageDelete(_) => ServerMsgOpcode::MessageDelete,
        ServerMsg::MessageReactionAdd(_) => ServerMsgOpcode::MessageReactionAdd,
        ServerMsg::MessageReactionRemove(_) => ServerMsgOpcode::MessageReactionRemove,
        ServerMsg::MessageReactionRemoveAll(_) => ServerMsgOpcode::MessageReactionRemoveAll,
        ServerMsg::MessageReactionRemoveEmote(_) => ServerMsgOpcode::MessageReactionRemoveEmote,
        ServerMsg::PresenceUpdate(_) => ServerMsgOpcode::PresenceUpdate,
        ServerMsg::TypingStart(_) => ServerMsgOpcode::TypingStart,
        ServerMsg::UserUpdate(_) => ServerMsgOpcode::UserUpdate,
        ServerMsg::ProfileUpdate(_) => ServerMsgOpcode::ProfileUpdate,
        ServerMsg::RelationAdd(_) => ServerMsgOpcode::RelationAdd,
        ServerMsg::RelationRemove(_) => ServerMsgOpcode::RelationRemove,
    }
}

impl ServerMsg {
    /// Returns the discrete opcode for the message
    pub fn opcode(&self) -> (r: ServerMsgOpcode)
        ensures
            r == server_msg_opcode(*self),
    {
        match self {
            ServerMsg::Hello(_) => ServerMsgOpcode::Hello,
            ServerMsg::HeartbeatAck(_) => ServerMsgOpcode::HeartbeatAck,
            ServerMsg::Ready(_) => ServerMsgOpcode::Ready,
            ServerMsg::InvalidSession(_) => ServerMsgOpcode::InvalidSession,
            ServerMsg::PartyCreate(_) => ServerMsgOpcode::PartyCreate,
            ServerMsg::PartyUpdate(_) => ServerMsgOpcode::PartyUpdate,
            ServerMsg::PartyDelete(_) => ServerMsgOpcode::PartyDelete,
            ServerMsg::RoleCreate(_) => ServerMsgOpcode::RoleCreate,
            ServerMsg::RoleUpdate(_) => ServerMsgOpcode::RoleUpdate,
            ServerMsg::RoleDelete(_) => ServerMsgOpcode::RoleDelete,
            ServerMsg::MemberAdd(_) => ServerMsgOpcode::MemberAdd,
            ServerMsg::MemberUpdate(_) => ServerMsgOpcode::MemberUpdate,
            ServerMsg::MemberRemove(_) => ServerMsgOpcode::MemberRemove,
            ServerMsg::MemberBan(_) => ServerMsgOpcode::MemberBan,
            ServerMsg::MemberUnban(_) => ServerMsgOpcode::MemberUnban,
            ServerMsg::RoomCreate(_) => ServerMsgOpcode::RoomCreate,
            ServerMsg::RoomUpdate(_) => ServerMsgOpcode::RoomUpdate,
            ServerMsg::RoomDelete(_) => ServerMsgOpcode::RoomDelete,
            ServerMsg::RoomPinsUpdate(_) => ServerMsgOpcode::RoomPinsUpdate,
            ServerMsg::MessageCreate(_) => ServerMsgOpcode::MessageCreate,
            ServerMsg::MessageUpdate(_) => ServerMsgOpcode::MessageUpdate,
            ServerMsg::MessageDelete(_) => ServerMsgOpcode::MessageDelete,
            ServerMsg::MessageReactionAdd(_) => ServerMsgOpcode::MessageReactionAdd,
            ServerMsg::MessageReactionRemove(_) => ServerMsgOpcode::MessageReactionRemove,
            ServerMsg::MessageReactionRemoveAll(_) => ServerMsgOpcode::MessageReactionRemoveAll,
            ServerMsg::MessageReactionRemoveEmote(_) => ServerMsgOpcode::MessageReactionRemoveEmote,
            ServerMsg::PresenceUpdate(_) => ServerMsgOpcode::PresenceUpdate,
            ServerMsg::TypingStart(_) => ServerMsgOpcode::TypingStart,
            ServerMsg::UserUpdate(_) => ServerMsgOpcode::UserUpdate,
            ServerMsg::ProfileUpdate(_) => ServerMsgOpcode::ProfileUpdate,
            ServerMsg::RelationAdd(_) => ServerMsgOpcode::RelationAdd,
            ServerMsg::RelationRemove(_) => ServerMsgOpcode::RelationRemove,
        }
    }

    /// Creates a [`Hello`](ServerMsg::Hello) message from its payload fields.
    pub fn new_hello(inner: Hello) -> (r: ServerMsg)
        ensures
            r == ServerMsg::Hello(server_msg_payloads::HelloPayload { inner }),
    {
        ServerMsg::Hello(server_msg_payloads::HelloPayload { inner })
    }

    /// Creates a [`HeartbeatAck`](ServerMsg::HeartbeatAck) message from its payload fields.
    pub fn new_heartbeat_ack() -> (r: ServerMsg)
        ensures
            r == ServerMsg::HeartbeatAck(server_msg_payloads::HeartbeatAckPayload { }),
    {
        ServerMsg::HeartbeatAck(server_msg_payloads::HeartbeatAckPayload { })
    }

    /// Creates a [`Ready`](ServerMsg::Ready) message from its payload fields.
    pub fn new_ready(inner: Arc<Ready>) -> (r: ServerMsg)
        ensures
            r == ServerMsg::Ready(server_msg_payloads::ReadyPayload { inner }),
    {
        ServerMsg::Ready(server_msg_payloads::ReadyPayload { inner })
    }

    /// Creates a [`InvalidSession`](ServerMsg::InvalidSession) message from its payload fields.
    pub fn new_invalid_session() -> (r: ServerMsg)
        ensures
            r == ServerMsg::InvalidSession(server_msg_payloads::InvalidSessionPayload { }),
    {
        ServerMsg::InvalidSession(server_msg_payloads::InvalidSessionPayload { })
    }

    /// Creates a [`PartyCreate`](ServerMsg::PartyCreate) message from its payload fields.
    pub fn new_party_create(inner: Arc<Party>) -> (r: ServerMsg)
        ensures
            r == ServerMsg::PartyCreate(server_msg_payloads::PartyCreatePayload { inner }),
    {
        ServerMsg::PartyCreate(server_msg_payloads::PartyCreatePayload { inner })
    }

    /// Creates a [`PartyUpdate`](ServerMsg::PartyUpdate) message from its payload fields.
    pub fn new_party_update(inner: Arc<PartyUpdateEvent>) -> (r: ServerMsg)
        ensures
            r == ServerMsg::PartyUpdate(server_msg_payloads::PartyUpdatePayload { inner }),
    {
        ServerMsg::PartyUpdate(server_msg_payloads::PartyUpdatePayload { inner })
    }

    /// Creates a [`PartyDelete`](ServerMsg::PartyDelete) message from its payload fields.
    pub fn new_party_delete(id: PartyId) -> (r: ServerMsg)
        ensures
            r == ServerMsg::PartyDelete(server_msg_payloads::PartyDeletePayload { id }),
    {
        ServerMsg::PartyDelete(server_msg_payloads::PartyDeletePayload { id })
    }

    /// Creates a [`RoleCreate`](ServerMsg::RoleCreate) message from its payload fields.
    pub fn new_role_create(inner: Arc<Role>) -> (r: ServerMsg)
        ensures
            r == ServerMsg::RoleCreate(server_msg_payloads::RoleCreatePayload { inner }),
    {
        ServerMsg::RoleCreate(server_msg_payloads::RoleCreatePayload { inner })
    }

    /// Creates a [`RoleUpdate`](ServerMsg::RoleUpdate) message from its payload fields.
    pub fn new_role_update(inner: Arc<Role>) -> (r: ServerMsg)
        ensures
            r == ServerMsg::RoleUpdate(server_msg_payloads::RoleUpdatePayload { inner }),
    {
        ServerMsg::RoleUpdate(server_msg_payloads::RoleUpdatePayload { inner })
    }

    /// Creates a [`RoleDelete`](ServerMsg::RoleDelete) message from its payload fields.
    pub fn new_role_delete(inner: Arc<RoleDeleteEvent>) -> (r: ServerMsg)
        ensures
            r == ServerMsg::RoleDelete(server_msg_payloads::RoleDeletePayload { inner }),
    {
        ServerMsg::RoleDelete(server_msg_payloads::RoleDeletePayload { inner })
    }

    /// Creates a [`MemberAdd`](ServerMsg::MemberAdd) message from its payload fields.
    pub fn new_member_add(inner: Arc<PartyMemberEvent>) -> (r: ServerMsg)
        ensures
            r == ServerMsg::MemberAdd(server_msg_payloads::MemberAddPayload { inner }),
    {
        ServerMsg::MemberAdd(server_msg_payloads::MemberAddPayload { inner })
    }

    /// Creates a [`MemberUpdate`](ServerMsg::MemberUpdate) message from its payload fields.
    pub fn new_member_update(inner: Arc<PartyMemberEvent>) -> (r: ServerMsg)
        ensures
            r == ServerMsg::MemberUpdate(server_msg_payloads::MemberUpdatePayload { inner }),
    {
        ServerMsg::MemberUpdate(server_msg_payloads::MemberUpdatePayload { inner })
    }

    /// Creates a [`MemberRemove`](ServerMsg::MemberRemove) message from its payload fields.
    pub fn new_member_remove(inner: Arc<PartyMemberEvent>) -> (r: ServerMsg)
        ensures
            r == ServerMsg::MemberRemove(server_msg_payloads::MemberRemovePayload { inner }),
    {
        ServerMsg::MemberRemove(server_msg_payloads::MemberRemovePayload { inner })
    }

    /// Creates a [`MemberBan`](ServerMsg::MemberBan) message from its payload fields.
    pub fn new_member_ban(inner: Arc<PartyMemberEvent>) -> (r: ServerMsg)
        ensures
            r == ServerMsg::MemberBan(server_msg_payloads::MemberBanPayload { inner }),
    {
        ServerMsg::MemberBan(server_msg_payloads::MemberBanPayload { inner })
    }

    /// Creates a [`MemberUnban`](ServerMsg::MemberUnban) message from its payload fields.
    pub fn new_member_unban(inner: Arc<PartyMemberEvent>) -> (r: ServerMsg)
        ensures
            r == ServerMsg::MemberUnban(server_msg_payloads::MemberUnbanPayload { inner }),
    {
        ServerMsg::MemberUnban(server_msg_payloads::MemberUnbanPayload { inner })
    }

    /// Creates a [`RoomCreate`](ServerMsg::RoomCreate) message from its payload fields.
    pub fn new_room_create(inner: Arc<RoomStub>) -> (r: ServerMsg)
        ensures
            r == ServerMsg::RoomCreate(server_msg_payloads::RoomCreatePayload { inner }),
    {
        ServerMsg::RoomCreate(server_msg_payloads::RoomCreatePayload { inner })
    }

    /// Creates a [`RoomUpdate`](ServerMsg::RoomUpdate) message from its payload fields.
    pub fn new_room_update(inner: Arc<RoomStub>) -> (r: ServerMsg)
        ensures
            r == ServerMsg::RoomUpdate(server_msg_payloads::RoomUpdatePayload { inner }),
    {
        ServerMsg::RoomUpdate(server_msg_payloads::RoomUpdatePayload { inner })
    }

    /// Creates a [`RoomDelete`](ServerMsg::RoomDelete) message from its payload fields.
    pub fn new_room_delete(inner: Arc<RoomDeleteEvent>) -> (r: ServerMsg)
        ensures
            r == ServerMsg::RoomDelete(server_msg_payloads::RoomDeletePayload { inner }),
    {
        ServerMsg::RoomDelete(server_msg_payloads::RoomDeletePayload { inner })
    }

    /// Creates a [`RoomPinsUpdate`](ServerMsg::RoomPinsUpdate) message from its payload fields.
    pub fn new_room_pins_update() -> (r: ServerMsg)
        ensures
            r == ServerMsg::RoomPinsUpdate(server_msg_payloads::RoomPinsUpdatePayload { }),
    {
        ServerMsg::RoomPinsUpdate(server_msg_payloads::RoomPinsUpdatePayload { })
    }

    /// Creates a [`MessageCreate`](ServerMsg::MessageCreate) message from its payload fields.
    pub fn new_message_create(inner: Arc<RoomMessage>) -> (r: ServerMsg)
        ensures
            r == ServerMsg::MessageCreate(server_msg_payloads::MessageCreatePayload { inner }),
    {
        ServerMsg::MessageCreate(server_msg_payloads::MessageCreatePayload { inner })
    }

    /// Creates a [`MessageUpdate`](ServerMsg::MessageUpdate) message from its payload fields.
    pub fn new_message_update(inner: Arc<RoomMessage>) -> (r: ServerMsg)
        ensures
            r == ServerMsg::MessageUpdate(server_msg_payloads::MessageUpdatePayload { inner }),
    {
        ServerMsg::MessageUpdate(server_msg_payloads::MessageUpdatePayload { inner })
    }

    /// Creates a [`MessageDelete`](ServerMsg::MessageDelete) message from its payload fields.
    pub fn new_message_delete(inner: Arc<MessageDeleteEvent>) -> (r: ServerMsg)
        ensures
            r == ServerMsg::MessageDelete(server_msg_payloads::MessageDeletePayload { inner }),
    {
        ServerMsg::MessageDelete(server_msg_payloads::MessageDeletePayload { inner })
    }

    /// Creates a [`MessageReactionAdd`](ServerMsg::MessageReactionAdd) message from its payload fields.
    pub fn new_message_reaction_add(inner: Arc<UserReactionEvent>) -> (r: ServerMsg)
        ensures
            r == ServerMsg::MessageReactionAdd(server_msg_payloads::MessageReactionAddPayload { inner }),
    {
        ServerMsg::MessageReactionAdd(server_msg_payloads::MessageReactionAddPayload { inner })
    }

    /// Creates a [`MessageReactionRemove`](ServerMsg::MessageReactionRemove) message from its payload fields.
    pub fn new_message_reaction_remove(inner: Arc<UserReactionEvent>) -> (r: ServerMsg)
        ensures
            r == ServerMsg::MessageReactionRemove(server_msg_payloads::MessageReactionRemovePayload { inner }),
    {
        ServerMsg::MessageReactionRemove(server_msg_payloads::MessageReactionRemovePayload { inner })
    }

    /// Creates a [`MessageReactionRemoveAll`](ServerMsg::MessageReactionRemoveAll) message from its payload fields.
    pub fn new_message_reaction_remove_all() -> (r: ServerMsg)
        ensures
            r == ServerMsg::MessageReactionRemoveAll(server_msg_payloads::MessageReactionRemoveAllPayload { }),
    {
        ServerMsg::MessageReactionRemoveAll(server_msg_payloads::MessageReactionRemoveAllPayload { })
    }

    /// Creates a [`MessageReactionRemoveEmote`](ServerMsg::MessageReactionRemoveEmote) message from its payload fields.
    pub fn new_message_reaction_remove_emote() -> (r: ServerMsg)
        ensures
            r == ServerMsg::MessageReactionRemoveEmote(server_msg_payloads::MessageReactionRemoveEmotePayload { }),
    {
        ServerMsg::MessageReactionRemoveEmote(server_msg_payloads::MessageReactionRemoveEmotePayload { })
    }

    /// Creates a [`PresenceUpdate`](ServerMsg::PresenceUpdate) message from its payload fields.
    pub fn new_presence_update(inner: Arc<UserPresenceEvent>) -> (r: ServerMsg)
        ensures
            r == ServerMsg::PresenceUpdate(server_msg_payloads::PresenceUpdatePayload { inner }),
    {
        ServerMsg::PresenceUpdate(server_msg_payloads::PresenceUpdatePayload { inner })
    }

    /// Creates a [`TypingStart`](ServerMsg::TypingStart) message from its payload fields.
    pub fn new_typing_start(inner: Arc<TypingStart>) -> (r: ServerMsg)
        ensures
            r == ServerMsg::TypingStart(server_msg_payloads::TypingStartPayload { inner }),
    {
        ServerMsg::TypingStart(server_msg_payloads::TypingStartPayload { inner })
    }

    /// Creates a [`UserUpdate`](ServerMsg::UserUpdate) message from its payload fields.
    pub fn new_user_update(user: Arc<User>) -> (r: ServerMsg)
        ensures
            r == ServerMsg::UserUpdate(server_msg_payloads::UserUpdatePayload { user }),
    {
        ServerMsg::UserUpdate(server_msg_payloads::UserUpdatePayload { user })
    }

    /// Creates a [`ProfileUpdate`](ServerMsg::ProfileUpdate) message from its payload fields.
    pub fn new_profile_update(inner: Arc<ProfileUpdateEvent>) -> (r: ServerMsg)
        ensures
            r == ServerMsg::ProfileUpdate(server_msg_payloads::ProfileUpdatePayload { inner }),
    {
        ServerMsg::ProfileUpdate(server_msg_payloads::ProfileUpdatePayload { inner })
    }

    /// Creates a [`RelationAdd`](ServerMsg::RelationAdd) message from its payload fields.
    pub fn new_relation_add(inner: Arc<Friend>) -> (r: ServerMsg)
        ensures
            r == ServerMsg::RelationAdd(server_msg_payloads::RelationAddPayload { inner }),
    {
        ServerMsg::RelationAdd(server_msg_payloads::RelationAddPayload { inner })
    }

    /// Creates a [`RelationRemove`](ServerMsg::RelationRemove) message from its payload fields.
    pub fn new_relation_remove(user_id: UserId) -> (r: ServerMsg)
        ensures
            r == ServerMsg::RelationRemove(server_msg_payloads::RelationRemovePayload { user_id }),
    {
        ServerMsg::RelationRemove(server_msg_payloads::RelationRemovePayload { user_id })
    }

}

impl From<&ServerMsg> for ServerMsgOpcode {
    fn from(msg: &ServerMsg) -> (r: ServerMsgOpcode) {
        msg.opcode()
    }
}

impl vstd::std_specs::convert::FromSpecImpl<&ServerMsg> for ServerMsgOpcode {
    open spec fn obeys_from_spec() -> bool {
        true
    }

    open spec fn from_spec(msg: &ServerMsg) -> ServerMsgOpcode {
        server_msg_opcode(*msg)
    }
}

/// OpCodes for [`ClientMsg`]
#[derive(Debug, Clone, Copy, PartialEq, Eq, Structural, Hash)]
pub enum ClientMsgOpcode {
    Heartbeat,
    Identify,
    Resume,
    SetPresence,
    Subscribe,
    Unsubscribe,
}

/// The number that stands for an opcode of [`ClientMsg`] on the wire.
pub open spec fn client_msg_opcode_code(op: ClientMsgOpcode) -> u8 {
    match op {
        ClientMsgOpcode::Heartbeat => 0u8,
        ClientMsgOpcode::Identify => 1u8,
        ClientMsgOpcode::Resume => 2u8,
        ClientMsgOpcode::SetPresence => 3u8,
        ClientMsgOpcode::Subscribe => 4u8,
        ClientMsgOpcode::Unsubscribe => 5u8,
    }
}

/// The opcode of [`ClientMsg`] that a number on the wire stands for, if any.
pub open spec fn client_msg_opcode_from_code(code: u8) -> Option<ClientMsgOpcode> {
    if code == 0u8 {
        Some(ClientMsgOpcode::Heartbeat)
    } else if code == 1u8 {
        Some(ClientMsgOpcode::Identify)
    } else if code == 2u8 {
        Some(ClientMsgOpcode::Resume)
    } else if code == 3u8 {
        Some(ClientMsgOpcode::SetPresence)
    } else if code == 4u8 {
        Some(ClientMsgOpcode::Subscribe)
    } else if code == 5u8 {
        Some(ClientMsgOpcode::Unsubscribe)
    } else {
        None
    }
}

impl ClientMsgOpcode {
    /// The number that stands for the opcode on the wire.
    pub fn code(&self) -> (r: u8)
        ensures
            r == client_msg_opcode_code(*self),
    {
        match self {
            ClientMsgOpcode::Heartbeat => 0u8,
            ClientMsgOpcode::Identify => 1u8,
            ClientMsgOpcode::Resume => 2u8,
            ClientMsgOpcode::SetPresence => 3u8,
            ClientMsgOpcode::Subscribe => 4u8,
            ClientMsgOpcode::Unsubscribe => 5u8,
        }
    }

    /// The opcode a number on the wire stands for; `None` past the last opcode.
    pub fn from_code(code: u8) -> (r: Option<ClientMsgOpcode>)
        ensures
            r == client_msg_opcode_from_code(code),
    {
        match code {
            0u8 => Some(ClientMsgOpcode::Heartbeat),
            1u8 => Some(ClientMsgOpcode::Identify),
            2u8 => Some(ClientMsgOpcode::Resume),
            3u8 => Some(ClientMsgOpcode::SetPresence),
            4u8 => Some(ClientMsgOpcode::Subscribe),
            5u8 => Some(ClientMsgOpcode::Unsubscribe),
            _ => None,
        }
    }
}

/// Every opcode of [`ClientMsg`] is read back from its number, and every number that
/// reads back as an opcode is that opcode's number; the numbers are those below 6.
pub proof fn law_client_msg_opcode_code_roundtrip(op: ClientMsgOpcode, code: u8)
    ensures
        client_msg_opcode_from_code(client_msg_opcode_code(op)) == Some(op),
        client_msg_opcode_code(op) < 6,
        client_msg_opcode_from_code(code) matches Some(o) ==> client_msg_opcode_code(o) == code,
        client_msg_opcode_from_code(code) is Some <==> code < 6,
{
}

/// Messages sent from the client to the server
#[derive(Debug)]
pub enum ClientMsg {
    Heartbeat(client_msg_payloads::HeartbeatPayload),
    Identify(client_msg_payloads::IdentifyPayload),
    Resume(client_msg_payloads::ResumePayload),
    SetPresence(client_msg_payloads::SetPresencePayload),
    Subscribe(client_msg_payloads::SubscribePayload),
    Unsubscribe(client_msg_payloads::UnsubscribePayload),
}

/// The opcode of a message of [`ClientMsg`].
pub open spec fn client_msg_opcode(msg: ClientMsg) -> ClientMsgOpcode {
    match msg {
        ClientMsg::Heartbeat(_) => ClientMsgOpcode::Heartbeat,
        ClientMsg::Identify(_) => ClientMsgOpcode::Identify,
        ClientMsg::Resume(_) => ClientMsgOpcode::Resume,
        ClientMsg::SetPresence(_) => ClientMsgOpcode::SetPresence,
        ClientMsg::Subscribe(_) => ClientMsgOpcode::Subscribe,
        ClientMsg::Unsubscribe(_) => ClientMsgOpcode::Unsubscribe,
    }
}

impl ClientMsg {
    /// Returns the discrete opcode for the message
    pub fn opcode(&self) -> (r: ClientMsgOpcode)
        ensures
            r == client_msg_opcode(*self),
    {
        match self {
            ClientMsg::Heartbeat(_) => ClientMsgOpcode::Heartbeat,
            ClientMsg::Identify(_) => ClientMsgOpcode::Identify,
            ClientMsg::Resume(_) => ClientMsgOpcode::Resume,
            ClientMsg::SetPresence(_) => ClientMsgOpcode::SetPresence,
            ClientMsg::Subscribe(_) => ClientMsgOpcode::Subscribe,
            ClientMsg::Unsubscribe(_) => ClientMsgOpcode::Unsubscribe,
        }
    }

    /// Creates a [`Heartbeat`](ClientMsg::Heartbeat) message from its payload fields.
    pub fn new_heartbeat() -> (r: ClientMsg)
        ensures
            r == ClientMsg::Heartbeat(client_msg_payloads::HeartbeatPayload { }),
    {
        ClientMsg::Heartbeat(client_msg_payloads::HeartbeatPayload { })
    }

    /// Creates a [`Identify`](ClientMsg::Identify) message from its payload fields.
    pub fn new_identify(inner: Box<Identify>) -> (r: ClientMsg)
        ensures
            r == ClientMsg::Identify(client_msg_payloads::IdentifyPayload { inner }),
    {
        ClientMsg::Identify(client_msg_payloads::IdentifyPayload { inner })
    }

    /// Creates a [`Resume`](ClientMsg::Resume) message from its payload fields.
    pub fn new_resume(session: Snowflake) -> (r: ClientMsg)
        ensures
            r == ClientMsg::Resume(client_msg_payloads::ResumePayload { session }),
    {
        ClientMsg::Resume(client_msg_payloads::ResumePayload { session })
    }

    /// Creates a [`SetPresence`](ClientMsg::SetPresence) message from its payload fields.
    pub fn new_set_presence(inner: Box<SetPresence>) -> (r: ClientMsg)
        ensures
            r == ClientMsg::SetPresence(client_msg_payloads::SetPresencePayload { inner }),
    {
        ClientMsg::SetPresence(client_msg_payloads::SetPresencePayload { inner })
    }

    /// Creates a [`Subscribe`](ClientMsg::Subscribe) message from its payload fields.
    pub fn new_subscribe(party_id: PartyId) -> (r: ClientMsg)
        ensures
            r == ClientMsg::Subscribe(client_msg_payloads::SubscribePayload { party_id }),
    {
        ClientMsg::Subscribe(client_msg_payloads::SubscribePayload { party_id })
    }

    /// Creates a [`Unsubscribe`](ClientMsg::Unsubscribe) message from its payload fields.
    pub fn new_unsubscribe(party_id: PartyId) -> (r: ClientMsg)
        ensures
            r == ClientMsg::Unsubscribe(client_msg_payloads::UnsubscribePayload { party_id }),
    {
        ClientMsg::Unsubscribe(client_msg_payloads::UnsubscribePayload { party_id })
    }

}

impl From<&ClientMsg> for ClientMsgOpcode {
    fn from(msg: &ClientMsg) -> (r: ClientMsgOpcode) {
        msg.opcode()
    }
}

impl vstd::std_specs::convert::FromSpecImpl<&ClientMsg> for ClientMsgOpcode {
    open spec fn obeys_from_spec() -> bool {
        true
    }

    open spec fn from_spec(msg: &ClientMsg) -> ClientMsgOpcode {
        client_msg_opcode(*msg)
    }
}

/// The bits of the [`Intent`] a session must hold to receive a message of the server;
/// `None` for the messages every session receives.
pub open spec fn server_msg_intent_bits(msg: ServerMsg) -> Option<u32> {
    match msg {
        ServerMsg::PartyCreate(_)
        | ServerMsg::PartyDelete(_)
        | ServerMsg::PartyUpdate(_)
        | ServerMsg::RoleCreate(_)
        | ServerMsg::RoleDelete(_)
        | ServerMsg::RoleUpdate(_)
        | ServerMsg::RoomPinsUpdate(_)
        | ServerMsg::RoomCreate(_)
        | ServerMsg::RoomDelete(_)
        | ServerMsg::RoomUpdate(_) => Some(0x1u32),
        ServerMsg::MemberAdd(_) | ServerMsg::MemberUpdate(_) | ServerMsg::MemberRemove(_) => Some(0x2u32),
        ServerMsg::MemberBan(_) | ServerMsg::MemberUnban(_) => Some(0x4u32),
        ServerMsg::MessageCreate(_) | ServerMsg::MessageDelete(_) | ServerMsg::MessageUpdate(_) => Some(0x200u32),
        ServerMsg::MessageReactionAdd(_)
        | ServerMsg::MessageReactionRemove(_)
        | ServerMsg::MessageReactionRemoveAll(_)
        | ServerMsg::MessageReactionRemoveEmote(_) => Some(0x400u32),
        ServerMsg::PresenceUpdate(_) => Some(0x100u32),
        ServerMsg::TypingStart(_) => Some(0x800u32),
        ServerMsg::ProfileUpdate(payload) => match payload.inner.party_id {
            Some(_) => Some(0x8002u32),
            None => Some(0x8000u32),
        },
        ServerMsg::Hello(_)
        | ServerMsg::HeartbeatAck(_)
        | ServerMsg::Ready(_)
        | ServerMsg::UserUpdate(_)
        | ServerMsg::InvalidSession(_)
        | ServerMsg::RelationAdd(_)
        | ServerMsg::RelationRemove(_) => None,
    }
}

/// Typing events are exactly the messages that need the `MESSAGE_TYPING` intent (bit 11), and
/// message creations, updates and deletions exactly those that need the `MESSAGES` intent
/// (bit 9); every other message that needs an intent needs neither of these bits.
pub proof fn law_typing_and_message_intents(msg: ServerMsg)
    ensures
        server_msg_intent_bits(msg) == Some(1u32 << 11u32) <==> msg is TypingStart,
        server_msg_intent_bits(msg) == Some(1u32 << 9u32) <==> (msg is MessageCreate || msg is MessageDelete
            || msg is MessageUpdate),
        server_msg_intent_bits(msg) matches Some(b) ==> (b & (1u32 << 11u32) != 0 <==> msg is TypingStart),
{
    assert(1u32 << 11u32 == 0x800u32) by (bit_vector);
    assert(1u32 << 9u32 == 0x200u32) by (bit_vector);
    assert(0x1u32 & 0x800u32 == 0 && 0x2u32 & 0x800u32 == 0 && 0x4u32 & 0x800u32 == 0 && 0x200u32 & 0x800u32 == 0
        && 0x400u32 & 0x800u32 == 0 && 0x100u32 & 0x800u32 == 0 && 0x800u32 & 0x800u32 != 0 && 0x8002u32 & 0x800u32
        == 0 && 0x8000u32 & 0x800u32 == 0) by (bit_vector);
}

/// The user a message of the server originated from, for the messages that name one.
pub open spec fn server_msg_user_id(msg: ServerMsg) -> Option<UserId> {
    match msg {
        ServerMsg::MemberAdd(e) => Some(e.inner.member.user.id),
        ServerMsg::MemberUpdate(e) => Some(e.inner.member.user.id),
        ServerMsg::MemberRemove(e) => Some(e.inner.member.user.id),
        ServerMsg::MemberBan(e) => Some(e.inner.member.user.id),
        ServerMsg::MemberUnban(e) => Some(e.inner.member.user.id),
        ServerMsg::MessageCreate(m) => Some(m.inner.author.user.id),
        ServerMsg::MessageUpdate(m) => Some(m.inner.author.user.id),
        ServerMsg::MessageReactionAdd(r) => Some(r.inner.user_id),
        ServerMsg::MessageReactionRemove(r) => Some(r.inner.user_id),
        ServerMsg::PresenceUpdate(p) => Some(p.inner.user.id),
        _ => None,
    }
}

impl ServerMsg {
    /// The intent a session must hold to receive the message, or `None` when every
    /// session receives it.
    pub fn matching_intent(&self) -> (r: Option<Intent>)
        ensures
            match r {
                Some(i) => server_msg_intent_bits(*self) == Some(i@),
                None => server_msg_intent_bits(*self) is None,
            },
    {
        let intent = match self {
            ServerMsg::PartyCreate(_)
            | ServerMsg::PartyDelete(_)
            | ServerMsg::PartyUpdate(_)
            | ServerMsg::RoleCreate(_)
            | ServerMsg::RoleDelete(_)
            | ServerMsg::RoleUpdate(_)
            | ServerMsg::RoomPinsUpdate(_)
            | ServerMsg::RoomCreate(_)
            | ServerMsg::RoomDelete(_)
            | ServerMsg::RoomUpdate(_) => Intent::PARTIES(),
            ServerMsg::MemberAdd(_) | ServerMsg::MemberUpdate(_) | ServerMsg::MemberRemove(_) => {
                Intent::PARTY_MEMBERS()
            },
            ServerMsg::MemberBan(_) | ServerMsg::MemberUnban(_) => Intent::PARTY_BANS(),
            ServerMsg::MessageCreate(_) | ServerMsg::MessageDelete(_) | ServerMsg::MessageUpdate(_) => {
                Intent::MESSAGES()
            },
            ServerMsg::MessageReactionAdd(_)
            | ServerMsg::MessageReactionRemove(_)
            | ServerMsg::MessageReactionRemoveAll(_)
            | ServerMsg::MessageReactionRemoveEmote(_) => Intent::MESSAGE_REACTIONS(),
            ServerMsg::PresenceUpdate(_) => Intent::PRESENCE(),
            ServerMsg::TypingStart(_) => Intent::MESSAGE_TYPING(),
            ServerMsg::ProfileUpdate(payload) => match payload.inner.party_id {
                Some(_) => {
                    let both = Intent::PROFILE_UPDATES().union(Intent::PARTY_MEMBERS());
                    assert(0x8000u32 | 0x2u32 == 0x8002u32) by (bit_vector);
                    both
                },
                None => Intent::PROFILE_UPDATES(),
            },
            ServerMsg::Hello(_)
            | ServerMsg::HeartbeatAck(_)
            | ServerMsg::Ready(_)
            | ServerMsg::UserUpdate(_)
            | ServerMsg::InvalidSession(_)
            | ServerMsg::RelationAdd(_)
            | ServerMsg::RelationRemove(_) => return None,
        };
        Some(intent)
    }

    /// If the event originated from a specific user, get their ID
    pub fn user_id(&self) -> (r: Option<UserId>)
        ensures
            r == server_msg_user_id(*self),
    {
        match self {
            ServerMsg::MemberAdd(e) => Some(e.inner.member.user.id),
            ServerMsg::MemberUpdate(e) => Some(e.inner.member.user.id),
            ServerMsg::MemberRemove(e) => Some(e.inner.member.user.id),
            ServerMsg::MemberBan(e) => Some(e.inner.member.user.id),
            ServerMsg::MemberUnban(e) => Some(e.inner.member.user.id),
            ServerMsg::MessageCreate(m) => Some(m.inner.author.user.id),
            ServerMsg::MessageUpdate(m) => Some(m.inner.author.user.id),
            ServerMsg::MessageReactionAdd(r) => Some(r.inner.user_id),
            ServerMsg::MessageReactionRemove(r) => Some(r.inner.user_id),
            ServerMsg::PresenceUpdate(p) => Some(p.inner.user.id),
            _ => None,
        }
    }
}

impl ServerMsgOpcode {
    /// Whether the payload of such a message is left out of its encoding: it is empty, and a
    /// missing one reads as the default.
    pub fn payload_is_optional(&self) -> (r: bool)
        ensures
            r == (*self == ServerMsgOpcode::HeartbeatAck || *self == ServerMsgOpcode::InvalidSession),
    {
        matches!(self, ServerMsgOpcode::HeartbeatAck | ServerMsgOpcode::InvalidSession)
    }
}

impl ClientMsgOpcode {
    /// Whether the payload of such a message is left out of its encoding: it is empty, and a
    /// missing one reads as the default.
    pub fn payload_is_optional(&self) -> (r: bool)
        ensures
            r == (*self == ClientMsgOpcode::Heartbeat),
    {
        matches!(self, ClientMsgOpcode::Heartbeat)
    }
}

} // verus!
