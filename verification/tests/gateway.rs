use std::sync::Arc;

use client_sdk::models::gateway::events::{Hello, PartyMemberEvent, ProfileUpdateEvent, UserReactionEvent};
use client_sdk::models::gateway::message::{ClientMsg, ClientMsgOpcode, ServerMsg, ServerMsgOpcode};
use client_sdk::models::gateway::Intent;
use client_sdk::models::message::EmoteOrEmoji;
use client_sdk::models::nullable::Nullable;
use client_sdk::models::party::{PartyMember, PartyMemberFlags};
use client_sdk::models::sf::Snowflake;
use client_sdk::models::user::{User, UserFlags};

fn sf(v: u64) -> Snowflake {
    Snowflake::new(v).unwrap()
}

fn user(id: u64) -> User {
    User {
        id: sf(id),
        username: smol_str::SmolStr::new("someone"),
        discriminator: 42,
        flags: UserFlags::empty(),
        profile: Nullable::Undefined,
        email: None,
        preferences: None,
    }
}

fn member(id: u64) -> PartyMember {
    PartyMember { user: user(id), joined_at: None, flags: PartyMemberFlags::empty(), roles: thin_vec::ThinVec::new() }
}

#[test]
fn test_client_msg_size() {
    assert_eq!(16, core::mem::size_of::<ClientMsg>());
}

#[test]
fn hello_defaults_to_45_seconds() {
    assert_eq!(Hello::default().heartbeat_interval, 45000);
}

#[test]
fn party_messages_need_parties_intent() {
    let msg = ServerMsg::new_room_pins_update();
    assert_eq!(msg.matching_intent(), Some(Intent::PARTIES()));
    let msg = ServerMsg::new_party_delete(sf(5));
    assert_eq!(msg.matching_intent(), Some(Intent::PARTIES()));
}

#[test]
fn session_messages_need_no_intent() {
    assert_eq!(ServerMsg::new_heartbeat_ack().matching_intent(), None);
    assert_eq!(ServerMsg::new_invalid_session().matching_intent(), None);
    assert_eq!(ServerMsg::new_hello(Hello::default()).matching_intent(), None);
    assert_eq!(ServerMsg::new_relation_remove(sf(9)).matching_intent(), None);
}

#[test]
fn member_messages_intents() {
    let add = ServerMsg::new_member_add(Arc::new(PartyMemberEvent { party_id: sf(1), member: member(7) }));
    assert_eq!(add.matching_intent(), Some(Intent::PARTY_MEMBERS()));
    let ban = ServerMsg::new_member_ban(Arc::new(PartyMemberEvent { party_id: sf(1), member: member(7) }));
    assert_eq!(ban.matching_intent(), Some(Intent::PARTY_BANS()));
    assert_eq!(ServerMsg::new_message_reaction_remove_all().matching_intent(), Some(Intent::MESSAGE_REACTIONS()));
}

#[test]
fn profile_update_intent_depends_on_party() {
    let global = ServerMsg::new_profile_update(Arc::new(ProfileUpdateEvent { party_id: None, user: user(3) }));
    assert_eq!(global.matching_intent(), Some(Intent::PROFILE_UPDATES()));
    assert_eq!(global.matching_intent().unwrap().bits(), 0x8000);

    let in_party = ServerMsg::new_profile_update(Arc::new(ProfileUpdateEvent { party_id: Some(sf(2)), user: user(3) }));
    assert_eq!(in_party.matching_intent(), Some(Intent::PROFILE_UPDATES().union(Intent::PARTY_MEMBERS())));
    assert_eq!(in_party.matching_intent().unwrap().bits(), 0x8002);
}

#[test]
fn user_id_of_member_and_reaction_events() {
    let add = ServerMsg::new_member_update(Arc::new(PartyMemberEvent { party_id: sf(1), member: member(77) }));
    assert_eq!(add.user_id(), Some(sf(77)));

    let reaction = ServerMsg::new_message_reaction_add(Arc::new(UserReactionEvent {
        user_id: sf(12),
        room_id: sf(13),
        party_id: sf(14),
        msg_id: sf(15),
        member: None,
        emote: EmoteOrEmoji::Emote { emote: sf(16) },
    }));
    assert_eq!(reaction.user_id(), Some(sf(12)));

    assert_eq!(ServerMsg::new_user_update(Arc::new(user(5))).user_id(), None);
    assert_eq!(ServerMsg::new_relation_remove(sf(5)).user_id(), None);
}

#[test]
fn opcodes_of_messages() {
    assert_eq!(ServerMsg::new_hello(Hello::default()).opcode(), ServerMsgOpcode::Hello);
    assert_eq!(ServerMsg::new_relation_remove(sf(1)).opcode().code(), 31);
    assert_eq!(ServerMsgOpcode::from(&ServerMsg::new_heartbeat_ack()), ServerMsgOpcode::HeartbeatAck);
    assert_eq!(ClientMsg::new_subscribe(sf(3)).opcode(), ClientMsgOpcode::Subscribe);
    assert_eq!(ClientMsg::new_heartbeat().opcode().code(), 0);
    assert_eq!(ClientMsg::new_resume(sf(3)).opcode().code(), 2);
}

#[test]
fn opcode_numbers_roundtrip() {
    for code in 0u8..32 {
        let op = ServerMsgOpcode::from_code(code).unwrap();
        assert_eq!(op.code(), code);
    }
    assert_eq!(ServerMsgOpcode::from_code(32), None);
    assert_eq!(ServerMsgOpcode::from_code(255), None);
    for code in 0u8..6 {
        assert_eq!(ClientMsgOpcode::from_code(code).unwrap().code(), code);
    }
    assert_eq!(ClientMsgOpcode::from_code(6), None);
}

#[test]
fn optional_payloads() {
    assert!(ServerMsgOpcode::HeartbeatAck.payload_is_optional());
    assert!(ServerMsgOpcode::InvalidSession.payload_is_optional());
    assert!(!ServerMsgOpcode::Ready.payload_is_optional());
    assert!(ClientMsgOpcode::Heartbeat.payload_is_optional());
    assert!(!ClientMsgOpcode::Identify.payload_is_optional());
}
