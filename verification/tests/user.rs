use client_sdk::models::user::{DateOfBirth, ElevationLevel, UserFlags, UserProfile};

#[test]
fn test_user_elevation_flags() {
    let f = UserFlags::ELEVATION_3();
    assert_eq!(f.elevation(), ElevationLevel::System);

    for &ev in &[ElevationLevel::NoElevation, ElevationLevel::Bot, ElevationLevel::Staff, ElevationLevel::System] {
        assert_eq!(UserFlags::empty().with_elevation(ev).elevation(), ev);
        assert_eq!(UserFlags::all().with_elevation(ev).elevation(), ev);
    }

    println!("SYSTEM {}", f.bits());
    println!("BOT: {}", f.with_elevation(ElevationLevel::Bot).bits());
}

#[test]
fn elevation_keeps_other_flags() {
    let f = UserFlags::VERIFIED().union(UserFlags::PREMIUM_1());
    let g = f.with_elevation(ElevationLevel::Staff);
    assert!(g.contains(UserFlags::VERIFIED()));
    assert!(g.contains(UserFlags::PREMIUM_1()));
    assert_eq!(g.elevation(), ElevationLevel::Staff);
    assert_eq!(g.with_elevation(ElevationLevel::NoElevation), f);
}

#[test]
fn premium_and_storage_tiers() {
    assert_eq!(UserFlags::empty().premium_level(), 0);
    assert_eq!(UserFlags::PREMIUM_1().premium_level(), 1);
    assert_eq!(UserFlags::PREMIUM_1().union(UserFlags::PREMIUM_2()).premium_level(), 3);
    assert_eq!(UserFlags::EXTRA_STORAGE_2().extra_storage_tier(), 2);
}

#[test]
fn profile_color_bits() {
    let p = UserProfile::default();
    assert!(!p.override_color());
}

#[test]
fn date_of_birth_roundtrip() {
    let date = time::Date::from_calendar_date(2000, time::Month::February, 29).unwrap();
    let dob = DateOfBirth::from(date);
    assert_eq!(dob, DateOfBirth { year: 2000, month: 2, day: 29 });
    assert_eq!(time::Date::try_from(dob).unwrap(), date);
    assert!(time::Date::try_from(DateOfBirth { year: 2001, month: 2, day: 29 }).is_err());
    assert!(time::Date::try_from(DateOfBirth { year: 2001, month: 13, day: 1 }).is_err());
    assert!(time::Date::try_from(DateOfBirth { year: 2001, month: 4, day: 31 }).is_err());
    assert!(time::Date::try_from(DateOfBirth { year: 10000, month: 1, day: 1 }).is_err());
    assert!(time::Date::try_from(DateOfBirth { year: 1900, month: 2, day: 29 }).is_err());
}
