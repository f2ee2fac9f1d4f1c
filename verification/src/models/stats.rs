//! Statistics of the rooms of a party.

use vstd::prelude::*;

use super::sf::RoomId;
use super::FxRandomState2;

verus! {

/// Statistics of every room of a party.
#[derive(Debug, Clone)]
pub struct Statistics {
    pub rooms: std::collections::HashMap<RoomId, RoomStatistics, FxRandomState2>,
}

/// Statistics of a room.
#[derive(Debug, Clone, Copy)]
pub struct RoomStatistics {
    /// Total number of messages sent
    pub messages: u64,
    /// Total number of attachment files sent
    pub files: u64,
    /// If a prefix was given to the query, this will the message
    /// count where the message is prefixed by that.
    ///
    /// Otherwise it will be zero.
    pub prefixed: u64,
}

} // verus!
