//! Sessions of users.

use vstd::prelude::*;

use super::auth::AuthToken;

verus! {

/// A session of a user.
#[derive(Debug, Clone)]
pub struct Session {
    /// Auth token encoded as base-64
    pub auth: AuthToken,
    /// Expiration timestamp encoded with RFC 3339
    pub expires: iso8601_timestamp::Timestamp,
}

/// A session without a user.
#[derive(Debug, Clone)]
pub struct AnonymousSession {
    /// Expiration timestamp encoded with RFC 3339/ISO 8061
    pub expires: iso8601_timestamp::Timestamp,
}

} // verus!
