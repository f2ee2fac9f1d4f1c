//! Configuration that a server publishes to its clients.

use vstd::prelude::*;

use crate::util::fixed::FixedStr;

verus! {

/// Site key of hCaptcha.
pub type HCaptchaSiteKey = FixedStr<36>;

/// Configuration of a server.
#[derive(Debug, Clone)]
pub struct ServerConfig {
    pub hcaptcha_sitekey: HCaptchaSiteKey,
    /// CDN Domain
    pub cdn: smol_str::SmolStr,
    /// Minimum user age (in years)
    pub min_age: u8,
    /// If the serve should require HTTPS
    pub secure: bool,
    pub limits: ServerLimits,
    /// If true, use a "camo"/camouflage route provided at "{cdn}/camo/base64_url/url_signature"
    pub camo: bool,
}

/// Limits of a server.
#[derive(Debug, Clone, Copy, PartialEq, Eq, Structural)]
pub struct ServerLimits {
    pub max_upload_size: u64,
    pub max_avatar_size: u32,
    pub max_banner_size: u32,
    pub max_avatar_pixels: u32,
    pub max_banner_pixels: u32,
    pub avatar_width: u32,
    pub banner_width: u32,
    pub banner_height: u32,
}

} // verus!
