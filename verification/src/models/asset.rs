//! Flags describing the encoding of an asset.

use vstd::prelude::*;
use vstd::string::StringSliceAdditionalSpecFns;

verus! {

/// Encoding of an asset: quality, alpha, animation and format.
///
/// Formats are individual flags (rather than some integer value) so that queries for any of
/// several formats are a single bitwise-AND.
#[derive(Debug, Clone, Copy, PartialEq, Eq, Structural, Hash)]
pub struct AssetFlags {
    bits: i16,
}

impl View for AssetFlags {
    type V = i16;

    closed spec fn view(&self) -> i16 {
        self.bits
    }
}

/// Union of the bits of every named flag of [`AssetFlags`].
pub open spec fn asset_all_bits() -> i16 {
    (-129i16)
}

#[allow(non_snake_case)]
impl AssetFlags {
    /// 7-bit unsigned integer for quality from `[0-128)`
    ///
    /// A quality value greater then 100 indicates some lossless encoding
    pub fn QUALITY() -> (r: AssetFlags)
        ensures
            r@ == 0x7fi16,
    {
        AssetFlags { bits: 0x7fi16 }
    }

    /// Indicates if the encoded image has an alpha channel
    pub fn HAS_ALPHA() -> (r: AssetFlags)
        ensures
            r@ == 0x100i16,
    {
        AssetFlags { bits: 0x100i16 }
    }

    /// Indicates if the encoded image is animated
    pub fn ANIMATED() -> (r: AssetFlags)
        ensures
            r@ == 0x200i16,
    {
        AssetFlags { bits: 0x200i16 }
    }

    /// PNG format
    pub fn FORMAT_PNG() -> (r: AssetFlags)
        ensures
            r@ == 0x400i16,
    {
        AssetFlags { bits: 0x400i16 }
    }

    /// JPEG format
    pub fn FORMAT_JPEG() -> (r: AssetFlags)
        ensures
            r@ == 0x800i16,
    {
        AssetFlags { bits: 0x800i16 }
    }

    /// GIF format
    pub fn FORMAT_GIF() -> (r: AssetFlags)
        ensures
            r@ == 0x1000i16,
    {
        AssetFlags { bits: 0x1000i16 }
    }

    /// AVIF format
    pub fn FORMAT_AVIF() -> (r: AssetFlags)
        ensures
            r@ == 0x2000i16,
    {
        AssetFlags { bits: 0x2000i16 }
    }

    /// WebM format
    pub fn FORMAT_WEBM() -> (r: AssetFlags)
        ensures
            r@ == 0x4000i16,
    {
        AssetFlags { bits: 0x4000i16 }
    }

    /// Jpeg XL format
    pub fn FORMAT_JXL() -> (r: AssetFlags)
        ensures
            r@ == (-32768i16),
    {
        AssetFlags { bits: (-32768i16) }
    }

    /// All supported formats
    pub fn FORMATS() -> (r: AssetFlags)
        ensures
            r@ == (-1024i16),
    {
        AssetFlags { bits: (-1024i16) }
    }

    /// These formats don't have widespread support yet, so don't include them by default
    pub fn MAYBE_UNSUPPORTED_FORMATS() -> (r: AssetFlags)
        ensures
            r@ == (-24576i16),
    {
        AssetFlags { bits: (-24576i16) }
    }

    /// All qualifier flags
    pub fn FLAGS() -> (r: AssetFlags)
        ensures
            r@ == 0x300i16,
    {
        AssetFlags { bits: 0x300i16 }
    }

    /// All formats and flags
    pub fn FORMATS_AND_FLAGS() -> (r: AssetFlags)
        ensures
            r@ == (-256i16),
    {
        AssetFlags { bits: (-256i16) }
    }

    /// The raw bits.
    pub fn bits(&self) -> (r: i16)
        ensures
            r == self@,
    {
        self.bits
    }

    /// No flags.
    pub fn empty() -> (r: AssetFlags)
        ensures
            r@ == 0,
    {
        AssetFlags { bits: 0 }
    }

    /// Every named flag.
    pub fn all() -> (r: AssetFlags)
        ensures
            r@ == asset_all_bits(),
    {
        AssetFlags { bits: (-129i16) }
    }

    /// Keeps the named flags of `bits` and drops the other bits.
    pub fn from_bits_truncate(bits: i16) -> (r: AssetFlags)
        ensures
            r@ == bits & asset_all_bits(),
    {
        AssetFlags { bits: bits & (-129i16) }
    }

    /// Keeps `bits` exactly as given.
    pub fn from_bits_retain(bits: i16) -> (r: AssetFlags)
        ensures
            r@ == bits,
    {
        AssetFlags { bits }
    }

    /// `Some` exactly when every bit of `bits` names a flag.
    pub fn from_bits(bits: i16) -> (r: Option<AssetFlags>)
        ensures
            r is Some <==> bits & !asset_all_bits() == 0,
            r matches Some(f) ==> f@ == bits,
    {
        if bits & !(-129i16) == 0 {
            Some(AssetFlags { bits })
        } else {
            None
        }
    }

    pub fn is_empty(&self) -> (r: bool)
        ensures
            r == (self@ == 0),
    {
        self.bits == 0
    }

    /// Whether every flag of `other` is set in `self`.
    pub fn contains(&self, other: AssetFlags) -> (r: bool)
        ensures
            r == (self@ & other@ == other@),
    {
        self.bits & other.bits == other.bits
    }

    pub fn union(self, other: AssetFlags) -> (r: AssetFlags)
        ensures
            r@ == self@ | other@,
    {
        AssetFlags { bits: self.bits | other.bits }
    }

    pub fn intersection(self, other: AssetFlags) -> (r: AssetFlags)
        ensures
            r@ == self@ & other@,
    {
        AssetFlags { bits: self.bits & other.bits }
    }

    /// The flags of `self` that are not in `other`.
    pub fn difference(self, other: AssetFlags) -> (r: AssetFlags)
        ensures
            r@ == self@ & !other@,
    {
        AssetFlags { bits: self.bits & !other.bits }
    }

    /// The named flags that are not in `self`.
    pub fn complement(self) -> (r: AssetFlags)
        ensures
            r@ == !self@ & asset_all_bits(),
    {
        AssetFlags { bits: !self.bits & (-129i16) }
    }
}

/// The flags with the quality replaced by `q`, clamped to `[0-128)`.
pub open spec fn asset_with_quality(bits: i16, q: u8) -> i16 {
    (bits & (!0x7fi16 & asset_all_bits())) | (if q < 128 {
        (q as i16) & asset_all_bits()
    } else {
        0x7fi16
    })
}

/// The byte as a lower-case ASCII letter when it is an upper-case one.
pub open spec fn ascii_lower(b: u8) -> u8 {
    if 65 <= b <= 90 {
        (b + 32) as u8
    } else {
        b
    }
}

/// Whether two byte strings are equal up to the case of ASCII letters.
pub open spec fn eq_ignore_ascii_case(a: Seq<u8>, b: Seq<u8>) -> bool {
    a.len() == b.len() && forall|i: int| 0 <= i < a.len() ==> ascii_lower(#[trigger] a[i]) == ascii_lower(b[i])
}

/// The format flag of a file extension, compared without case: `png`, `jpeg`, `jpg`, `gif` and
/// `avif` are known, and an extension of fewer than 3 or more than 4 bytes is never one.
pub open spec fn asset_format_of_ext(ext: Seq<u8>) -> i16 {
    if 3 <= ext.len() < 5 {
        if eq_ignore_ascii_case(ext, seq![112u8, 110u8, 103u8]) {
            0x400i16
        } else if eq_ignore_ascii_case(ext, seq![106u8, 112u8, 101u8, 103u8]) {
            0x800i16
        } else if eq_ignore_ascii_case(ext, seq![106u8, 112u8, 103u8]) {
            0x800i16
        } else if eq_ignore_ascii_case(ext, seq![103u8, 105u8, 102u8]) {
            0x1000i16
        } else if eq_ignore_ascii_case(ext, seq![97u8, 118u8, 105u8, 102u8]) {
            0x2000i16
        } else {
            0i16
        }
    } else {
        0i16
    }
}

fn to_ascii_lower(b: u8) -> (r: u8)
    ensures
        r == ascii_lower(b),
{
    if 65 <= b && b <= 90 {
        b + 32
    } else {
        b
    }
}

fn bytes_eq_ignore_ascii_case(a: &[u8], b: &[u8]) -> (r: bool)
    ensures
        r == eq_ignore_ascii_case(a@, b@),
{
    if a.len() != b.len() {
        return false;
    }
    let mut i: usize = 0;
    while i < a.len()
        invariant
            i <= a@.len(),
            a@.len() == b@.len(),
            forall|j: int| 0 <= j < i ==> ascii_lower(#[trigger] a@[j]) == ascii_lower(b@[j]),
        decreases a@.len() - i,
    {
        if to_ascii_lower(a[i]) != to_ascii_lower(b[i]) {
            return false;
        }
        i += 1;
    }
    true
}

impl AssetFlags {
    /// Sets the quality of the asset, clamping to `[0-128)`
    pub fn with_quality(self, q: u8) -> (r: AssetFlags)
        ensures
            r@ == asset_with_quality(self@, q),
    {
        self.intersection(AssetFlags::QUALITY().complement()).union(
            if q < 128 {
                AssetFlags::from_bits_truncate(q as i16)
            } else {
                AssetFlags::QUALITY()
            },
        )
    }

    /// Sets the alpha channel flag
    pub fn with_alpha(&self, has_alpha: bool) -> (r: AssetFlags)
        ensures
            r@ == (if has_alpha {
                self@ | 0x100i16
            } else {
                self@ & !0x100i16
            }),
    {
        if has_alpha {
            self.union(AssetFlags::HAS_ALPHA())
        } else {
            self.difference(AssetFlags::HAS_ALPHA())
        }
    }

    /// Gets the quality value from the asset flags
    pub fn quality(&self) -> (r: u8)
        ensures
            r == (self@ & 0x7fi16) as u8,
    {
        self.intersection(AssetFlags::QUALITY()).bits() as u8
    }

    /// Constructs a new `AssetFlags` from the given extension
    pub fn from_ext(ext: &str) -> (r: AssetFlags)
        ensures
            r@ == asset_format_of_ext(ext.spec_bytes()),
    {
        let e = ext.as_bytes();
        if 3 <= e.len() && e.len() < 5 {
            let png: [u8; 3] = [112, 110, 103];
            let jpeg: [u8; 4] = [106, 112, 101, 103];
            let jpg: [u8; 3] = [106, 112, 103];
            let gif: [u8; 3] = [103, 105, 102];
            let avif: [u8; 4] = [97, 118, 105, 102];
            proof {
                assert(png@ == seq![112u8, 110u8, 103u8]);
                assert(jpeg@ == seq![106u8, 112u8, 101u8, 103u8]);
                assert(jpg@ == seq![106u8, 112u8, 103u8]);
                assert(gif@ == seq![103u8, 105u8, 102u8]);
                assert(avif@ == seq![97u8, 118u8, 105u8, 102u8]);
            }
            if bytes_eq_ignore_ascii_case(e, png.as_slice()) {
                return AssetFlags::FORMAT_PNG();
            }
            if bytes_eq_ignore_ascii_case(e, jpeg.as_slice()) {
                return AssetFlags::FORMAT_JPEG();
            }
            if bytes_eq_ignore_ascii_case(e, jpg.as_slice()) {
                return AssetFlags::FORMAT_JPEG();
            }
            if bytes_eq_ignore_ascii_case(e, gif.as_slice()) {
                return AssetFlags::FORMAT_GIF();
            }
            if bytes_eq_ignore_ascii_case(e, avif.as_slice()) {
                return AssetFlags::FORMAT_AVIF();
            }
        }
        AssetFlags::empty()
    }
}

/// Setting the quality keeps every other named flag, and the quality read back is the one
/// set, clamped to `[0-128)`.
pub proof fn law_with_quality(bits: i16, q: u8)
    ensures
        (asset_with_quality(bits, q) & 0x7fi16) as u8 == (if q < 128 {
            q
        } else {
            127u8
        }),
        asset_with_quality(bits, q) & !0x7fi16 == bits & !0x7fi16 & asset_all_bits(),
{
    let r = asset_with_quality(bits, q);
    if q < 128 {
        let qi = q as i16;
        assert(((bits & (!0x7fi16 & (-129i16))) | (qi & (-129i16))) & 0x7fi16 == qi) by (bit_vector)
            requires
                0 <= qi < 128,
        ;
        assert(((bits & (!0x7fi16 & (-129i16))) | (qi & (-129i16))) & !0x7fi16 == bits & !0x7fi16 & (-129i16))
            by (bit_vector)
            requires
                0 <= qi < 128,
        ;
    } else {
        assert(((bits & (!0x7fi16 & (-129i16))) | 0x7fi16) & 0x7fi16 == 0x7fi16) by (bit_vector);
        assert(((bits & (!0x7fi16 & (-129i16))) | 0x7fi16) & !0x7fi16 == bits & !0x7fi16 & (-129i16))
            by (bit_vector);
    }
}

} // verus!
