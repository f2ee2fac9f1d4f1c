//! Data models shared by Lantern clients and servers: identifiers, permission
//! bitflags, auth tokens, gateway messages and user preferences, and a model of the
//! TypeScript types that describe them.

pub mod ext;
pub mod models;
pub mod util;
pub mod ts_bindgen;
