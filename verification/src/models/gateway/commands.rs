//! Commands a client sends over the gateway.

use vstd::prelude::*;

use super::Intent;
use crate::models::auth::AuthToken;
use crate::models::presence::UserPresence;

verus! {

/// Opens a gateway session with the given credentials and subscriptions.
#[derive(Debug, Clone)]
pub struct Identify {
    pub auth: AuthToken,
    pub intent: Intent,
}

/// Replaces the presence of the session's user.
#[derive(Debug, Clone)]
pub struct SetPresence {
    pub presence: UserPresence,
}

} // verus!
