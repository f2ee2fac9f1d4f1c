use client_sdk::models::permission::{Overwrite, Permissions};
use client_sdk::models::sf::Snowflake;

fn sf(v: u64) -> Snowflake {
    Snowflake::new(v).unwrap()
}

#[test]
fn test_print_admin() {
    println!("{:?}", Permissions::default().to_i64());
    println!("{:?}", Permissions::ADMINISTRATOR().to_i64());
}

#[test]
fn test_perm_cast() {
    let [low, high] = Permissions::all().to_i64();
    assert_eq!(Permissions::from_i64(low, high), Permissions::all());
}

#[test]
fn admin_splits_into_low_bit() {
    assert_eq!(Permissions::ADMINISTRATOR().to_i64(), [1, 0]);
    assert_eq!(Permissions::default(), Permissions::DEFAULT());
    assert_eq!(Permissions::default().to_i64(), [0x600005e1c0002000, 0]);
}

#[test]
fn from_i64_drops_unnamed_bits() {
    let p = Permissions::from_i64(-1, -1);
    assert_eq!(p, Permissions::all());
    assert_eq!(p.bits(), 0x8000000000000000f0000fffc0107fff);
}

#[test]
fn from_i64_opt_defaults_to_zero() {
    assert_eq!(Permissions::from_i64_opt(None, None), Permissions::empty());
    assert_eq!(Permissions::from_i64_opt(Some(1), None), Permissions::ADMINISTRATOR());
    let [low, high] = Permissions::DEFAULT().to_i64();
    assert_eq!(Permissions::from_i64_opt(Some(low), Some(high)), Permissions::DEFAULT());
}

#[test]
fn normalize_rules() {
    let admin = Permissions::ADMINISTRATOR().union(Permissions::SEND_MESSAGES());
    assert_eq!(admin.normalize(), Permissions::all());
    let default_only = Permissions::DEFAULT_ONLY().union(Permissions::KICK_MEMBERS());
    assert_eq!(default_only.normalize(), Permissions::DEFAULT());
    assert_eq!(Permissions::KICK_MEMBERS().normalize(), Permissions::KICK_MEMBERS());
    assert!(admin.is_admin());
    assert!(!Permissions::KICK_MEMBERS().is_admin());
}

#[test]
fn overwrite_apply_formula() {
    let ow = Overwrite { id: sf(1), allow: Permissions::SEND_MESSAGES(), deny: Permissions::KICK_MEMBERS() };
    let base = Permissions::KICK_MEMBERS().union(Permissions::BAN_MEMBERS());
    assert_eq!(ow.apply(base), Permissions::BAN_MEMBERS().union(Permissions::SEND_MESSAGES()));
}

#[test]
fn overwrite_combine_unions_both() {
    let a = Overwrite { id: sf(1), allow: Permissions::SEND_MESSAGES(), deny: Permissions::KICK_MEMBERS() };
    let b = Overwrite { id: sf(1), allow: Permissions::SPEAK(), deny: Permissions::BAN_MEMBERS() };
    let c = a.combine(b);
    assert_eq!(c.id, sf(1));
    assert_eq!(c.allow, Permissions::SEND_MESSAGES().union(Permissions::SPEAK()));
    assert_eq!(c.deny, Permissions::KICK_MEMBERS().union(Permissions::BAN_MEMBERS()));
}

#[test]
fn compute_admin_gets_everything() {
    let ows = [Overwrite { id: sf(10), allow: Permissions::empty(), deny: Permissions::all() }];
    let p = Permissions::ADMINISTRATOR().compute_overwrites(&ows, &[sf(10)], sf(99));
    assert_eq!(p, Permissions::all());
}

#[test]
fn compute_role_then_user_overwrites() {
    let base = Permissions::SEND_MESSAGES().union(Permissions::KICK_MEMBERS());
    let ows = [
        Overwrite { id: sf(10), allow: Permissions::SPEAK(), deny: Permissions::SEND_MESSAGES() },
        Overwrite { id: sf(11), allow: Permissions::CONNECT(), deny: Permissions::KICK_MEMBERS() },
        Overwrite { id: sf(99), allow: Permissions::SEND_MESSAGES(), deny: Permissions::SPEAK() },
    ];
    // role 11 is not one of the user's roles
    let p = base.compute_overwrites(&ows, &[sf(10)], sf(99));
    assert_eq!(p, Permissions::SEND_MESSAGES().union(Permissions::KICK_MEMBERS()));
}

#[test]
fn compute_default_only_starts_from_defaults() {
    let p = Permissions::DEFAULT_ONLY().compute_overwrites(&[], &[], sf(1));
    assert_eq!(p, Permissions::DEFAULT());
}

#[test]
fn compute_stops_at_user_overwrite() {
    let ows = [
        Overwrite { id: sf(99), allow: Permissions::SPEAK(), deny: Permissions::empty() },
        Overwrite { id: sf(10), allow: Permissions::CONNECT(), deny: Permissions::empty() },
    ];
    let p = Permissions::empty().compute_overwrites(&ows, &[sf(10)], sf(99));
    assert_eq!(p, Permissions::SPEAK());
}

#[test]
fn decimal_text_of_permissions() {
    assert_eq!(Permissions::ADMINISTRATOR().to_decimal(), "1");
    assert_eq!(Permissions::empty().to_decimal(), "0");
    let all = Permissions::all();
    assert_eq!(Permissions::from_decimal(&all.to_decimal()), Some(all));
    assert_eq!(Permissions::from_decimal("3"), Some(Permissions::ADMINISTRATOR().union(Permissions::CREATE_INVITE())));
    assert_eq!(Permissions::from_decimal("x"), None);
    assert_eq!(Permissions::from_decimal("340282366920938463463374607431768211456"), None);
    assert_eq!(
        Permissions::from_decimal("340282366920938463463374607431768211455"),
        Some(Permissions::all())
    );
}

#[test]
fn overwrites_of_others_do_not_matter() {
    let base = Permissions::SEND_MESSAGES().union(Permissions::KICK_MEMBERS());
    let ows = [
        Overwrite { id: sf(12), allow: Permissions::BAN_MEMBERS(), deny: Permissions::SEND_MESSAGES() },
        Overwrite { id: sf(10), allow: Permissions::SPEAK(), deny: Permissions::KICK_MEMBERS() },
        Overwrite { id: sf(55), allow: Permissions::all(), deny: Permissions::all() },
        Overwrite { id: sf(99), allow: Permissions::CONNECT(), deny: Permissions::empty() },
    ];
    let relevant = [ows[1], ows[3]];
    let all = base.compute_overwrites(&ows, &[sf(10)], sf(99));
    let only = base.compute_overwrites(&relevant, &[sf(10)], sf(99));
    assert_eq!(all, only);
    assert_eq!(all, Permissions::SEND_MESSAGES().union(Permissions::SPEAK()).union(Permissions::CONNECT()));
}
