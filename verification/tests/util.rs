use std::hash::{BuildHasher, Hasher};
use client_sdk::models::{default_true, is_default, is_false, is_none_or_empty, is_true};
use client_sdk::models::asset::AssetFlags;
use client_sdk::models::nullable::{ArchivedNullableTag, Nullable};
use client_sdk::models::room::{RoomFlags, RoomKind};
use client_sdk::models::sf::Snowflake;
use client_sdk::util::fixed::FixedStr;
use client_sdk::util::thin_str::ThinString;

#[test]
fn fixed_str_lengths() {
    let s: FixedStr<4> = FixedStr::new("abcd");
    assert_eq!(s.as_str(), "abcd");
    assert!(FixedStr::<4>::try_from("abc").is_err());
    assert_eq!(FixedStr::<4>::try_from("wxyz").unwrap().as_bytes(), b"wxyz");
    let r: FixedStr<3> = FixedStr::repeat_ascii('z');
    assert_eq!(r.as_str(), "zzz");
    assert_eq!(FixedStr::<2>::zeroized().as_bytes(), &[0, 0]);
}

#[test]
fn thin_string_building() {
    let mut s = ThinString::new();
    assert_eq!(s.len(), 0);
    s.push_str("héllo");
    s.push('!');
    assert_eq!(s.as_str(), "héllo!");
    assert_eq!(s.len(), 7);
    s.clear();
    assert_eq!(s.as_str(), "");
    let t = ThinString::from("abc");
    assert_eq!(t.clone().as_str(), "abc");
    assert_eq!(ThinString::from('é').as_bytes(), "é".as_bytes());
}

#[test]
fn thin_string_from_utf8() {
    let ok = ThinString::from_utf8(thin_vec::ThinVec::from(&b"ok"[..]));
    assert_eq!(ok.unwrap().as_str(), "ok");
    let bad = ThinString::from_utf8(thin_vec::ThinVec::from(&[0xffu8, 0xfe][..]));
    let err = bad.unwrap_err();
    assert_eq!(err.as_bytes(), &[0xff, 0xfe]);
}

#[test]
fn asset_formats_from_extensions() {
    assert_eq!(AssetFlags::from_ext("png"), AssetFlags::FORMAT_PNG());
    assert_eq!(AssetFlags::from_ext("JPG"), AssetFlags::FORMAT_JPEG());
    assert_eq!(AssetFlags::from_ext("jpeg"), AssetFlags::FORMAT_JPEG());
    assert_eq!(AssetFlags::from_ext("Gif"), AssetFlags::FORMAT_GIF());
    assert_eq!(AssetFlags::from_ext("avif"), AssetFlags::FORMAT_AVIF());
    assert_eq!(AssetFlags::from_ext("bmp"), AssetFlags::empty());
    assert_eq!(AssetFlags::from_ext("pn"), AssetFlags::empty());
}

#[test]
fn asset_quality_and_alpha() {
    let f = AssetFlags::FORMAT_PNG().with_quality(80);
    assert_eq!(f.quality(), 80);
    assert!(f.contains(AssetFlags::FORMAT_PNG()));
    assert_eq!(f.with_quality(200).quality(), 127);
    let a = f.with_alpha(true);
    assert!(a.contains(AssetFlags::HAS_ALPHA()));
    assert!(!a.with_alpha(false).contains(AssetFlags::HAS_ALPHA()));
}

#[test]
fn room_kind_in_flags() {
    for kind in [RoomKind::Text, RoomKind::DirectMessage, RoomKind::GroupMessage, RoomKind::Voice, RoomKind::UserForum] {
        assert_eq!(RoomFlags::from(kind).kind(), kind);
    }
    assert_eq!(RoomFlags::from_bits_retain(0xf).kind(), RoomKind::Text);
    assert_eq!(RoomKind::from_i16(3), Some(RoomKind::Voice));
    assert_eq!(RoomKind::from_i16(5), None);
}

#[test]
fn nullable_states() {
    let n: Nullable<u32> = Nullable::default();
    assert!(n.is_undefined());
    let v = Nullable::from(Some(3u32));
    assert!(v.is_some());
    assert!(Nullable::<u32>::from(None).is_null());
    assert!(v.map(|x| x + 1) == Nullable::Value(4));
    assert!(v.as_ref() == Nullable::Value(&3));
    let w: Nullable<u64> = v.map_into();
    assert!(w == Nullable::Value(3u64));
}

#[test]
fn snowflake_zero_is_rejected() {
    assert!(Snowflake::new(0).is_none());
    assert_eq!(Snowflake::new(5).unwrap().to_u64(), 5);
    assert_eq!(Snowflake::null().to_u64(), 1);
}

#[test]
fn thin_string_extend_and_collect() {
    let mut s = ThinString::from("a");
    s.extend_chars(&['b', 'ç']);
    s.extend_strs(&["d", "ef"]);
    assert_eq!(s.as_str(), "abçdef");
    assert_eq!(ThinString::from_chars(&['x', 'y']).as_str(), "xy");
}

#[test]
fn nullable_tag_bytes() {

    assert_eq!(ArchivedNullableTag::of(&Nullable::<u8>::Undefined).byte(), 0);
    assert_eq!(ArchivedNullableTag::of(&Nullable::<u8>::Null).byte(), 1);
    assert_eq!(ArchivedNullableTag::of(&Nullable::Value(5u8)).byte(), 2);
    assert_eq!(ArchivedNullableTag::from_byte(2), Some(ArchivedNullableTag::Value));
    assert_eq!(ArchivedNullableTag::from_byte(3), None);
}

#[test]
fn serde_helpers() {
    assert!(is_none_or_empty::<Vec<u8>>(&None));
    assert!(is_none_or_empty(&Some(Vec::<u8>::new())));
    assert!(!is_none_or_empty(&Some(vec![1u8])));
    assert!(is_none_or_empty(&Some(smol_str::SmolStr::new(""))));
    assert!(!is_none_or_empty(&Some(String::from("x"))));
    assert!(is_false(&false));
    assert!(is_true(&true));
    assert!(default_true());
    assert!(is_default(&0u32));
    assert!(!is_default(&5i16));
}

#[test]
fn map_into_is_map_with_into() {
    for n in [Nullable::Value(5u8), Nullable::Null, Nullable::Undefined] {
        let by_into: Nullable<u32> = n.map_into();
        let by_map: Nullable<u32> = n.map(Into::into);
        assert!(by_into == by_map);
    }
    assert!(Nullable::Value(5u8).map_into::<u32>() == Nullable::Value(5u32));
}

#[test]
fn build_hasher_starts_from_the_seed() {
    let mut a = client_sdk::models::FxRandomState2::with_seed(7).build_hasher();
    let mut b = rustc_hash::FxHasher::with_seed(7);
    let mut c = client_sdk::models::FxRandomState2::with_seed(8).build_hasher();
    a.write_u64(42);
    b.write_u64(42);
    c.write_u64(42);
    assert_eq!(a.finish(), b.finish());
    assert_ne!(a.finish(), c.finish());
}
