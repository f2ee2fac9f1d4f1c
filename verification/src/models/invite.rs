//! Invites to a party.

use vstd::prelude::*;

use super::party::PartialParty;
use super::sf::UserId;

verus! {

/// An invite to a party.
#[derive(Debug, Clone)]
pub struct Invite {
    /// Invite code, which is either an encrypted Snowflake or a custom vanity code.
    pub code: smol_str::SmolStr,
    pub party: PartialParty,
    pub inviter: Option<UserId>,
    pub description: Option<smol_str::SmolStr>,
    pub expires: Option<iso8601_timestamp::Timestamp>,
    /// Number of remaining uses this invite has left.
    ///
    /// Only users with the `MANAGE_INVITES` permission can see this.
    pub remaining: Option<u16>,
}

} // verus!
