//! Files uploaded to Lantern.

use vstd::prelude::*;

use super::sf::FileId;
use crate::util::thin_str::ThinString;

verus! {

/// Where to upload a file.
#[derive(Debug)]
pub struct FileUpload {
    pub upload_url: ThinString,
}

/// An uploaded file.
#[derive(Debug, Clone)]
pub struct File {
    pub id: FileId,
    pub filename: smol_str::SmolStr,
    pub size: i64,
    pub mime: Option<smol_str::SmolStr>,
    pub width: Option<i32>,
    pub height: Option<i32>,
    /// Base-85 encoded blurhash, basically guaranteed to be larger than 22 bytes so we can't use SmolStr
    pub preview: Option<ThinString>,
}

} // verus!
