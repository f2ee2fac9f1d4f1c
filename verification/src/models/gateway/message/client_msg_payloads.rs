//! Payload structs of the messages the client sends.

use vstd::prelude::*;

use crate::models::gateway::commands::{Identify, SetPresence};
use crate::models::sf::{PartyId, Snowflake};

verus! {

/// Payload of [`ClientMsg::Heartbeat`](super::ClientMsg::Heartbeat).
#[derive(Debug, PartialEq, Eq, Structural)]
pub struct HeartbeatPayload {}

impl Default for HeartbeatPayload {
    fn default() -> (r: HeartbeatPayload)
        ensures
            r == (HeartbeatPayload {}),
    {
        HeartbeatPayload {}
    }
}

/// Payload of [`ClientMsg::Identify`](super::ClientMsg::Identify).
#[derive(Debug)]
pub struct IdentifyPayload {
    pub inner: Box<Identify>,
}

impl core::ops::Deref for IdentifyPayload {
    type Target = Box<Identify>;

    fn deref(&self) -> (r: &Box<Identify>)
        ensures
            *r == self.inner,
    {
        &self.inner
    }
}

/// Payload of [`ClientMsg::Resume`](super::ClientMsg::Resume).
#[derive(Debug)]
pub struct ResumePayload {
    pub session: Snowflake,
}

/// Payload of [`ClientMsg::SetPresence`](super::ClientMsg::SetPresence).
#[derive(Debug)]
pub struct SetPresencePayload {
    pub inner: Box<SetPresence>,
}

impl core::ops::Deref for SetPresencePayload {
    type Target = Box<SetPresence>;

    fn deref(&self) -> (r: &Box<SetPresence>)
        ensures
            *r == self.inner,
    {
        &self.inner
    }
}

/// Payload of [`ClientMsg::Subscribe`](super::ClientMsg::Subscribe).
#[derive(Debug)]
pub struct SubscribePayload {
    pub party_id: PartyId,
}

/// Payload of [`ClientMsg::Unsubscribe`](super::ClientMsg::Unsubscribe).
#[derive(Debug)]
pub struct UnsubscribePayload {
    pub party_id: PartyId,
}

} // verus!
