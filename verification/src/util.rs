//! Small utility types used throughout the models.

pub mod digits;
pub mod fixed;
pub mod json;
pub mod prefs;
pub mod text;
pub mod thin_str;
