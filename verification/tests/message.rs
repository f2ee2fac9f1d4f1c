use client_sdk::models::message::EmoteOrEmoji;
use client_sdk::models::sf::Snowflake;

#[test]
fn emote_text() {
    let e = EmoteOrEmoji::Emote { emote: Snowflake::new(123).unwrap() };
    assert_eq!(e.to_string(), ":123");
    let smile = EmoteOrEmoji::Emoji { emoji: smol_str::SmolStr::new("😀") };
    assert_eq!(smile.to_string(), "%F0%9F%98%80");
    let plain = EmoteOrEmoji::Emoji { emoji: smol_str::SmolStr::new("a-b") };
    assert_eq!(plain.to_string(), "a%2Db");
}

#[test]
fn emote_parse() {
    match EmoteOrEmoji::from_str(":123") {
        Ok(EmoteOrEmoji::Emote { emote }) => assert_eq!(emote.to_u64(), 123),
        other => panic!("unexpected {:?}", other),
    }
    assert!(EmoteOrEmoji::from_str(":0").is_err());
    assert!(EmoteOrEmoji::from_str(":abc").is_err());
    assert!(EmoteOrEmoji::from_str(":").is_err());
    match EmoteOrEmoji::from_str("%F0%9F%98%80") {
        Ok(EmoteOrEmoji::Emoji { emoji }) => assert_eq!(emoji.as_str(), "😀"),
        other => panic!("unexpected {:?}", other),
    }
    match EmoteOrEmoji::from_str("a%zz%41") {
        Ok(EmoteOrEmoji::Emoji { emoji }) => assert_eq!(emoji.as_str(), "a%zzA"),
        other => panic!("unexpected {:?}", other),
    }
    match EmoteOrEmoji::from_str("") {
        Ok(EmoteOrEmoji::Emoji { emoji }) => assert!(emoji.is_empty()),
        other => panic!("unexpected {:?}", other),
    }
    match EmoteOrEmoji::from_str("%FF") {
        Ok(EmoteOrEmoji::Emoji { emoji }) => assert_eq!(emoji.as_str(), "\u{FFFD}"),
        other => panic!("unexpected {:?}", other),
    }
}

#[test]
fn snowflake_text() {
    assert_eq!(Snowflake::from_str("42").unwrap().to_u64(), 42);
    assert_eq!(Snowflake::from_str("+42").unwrap().to_u64(), 42);
    assert!(Snowflake::from_str("0").is_err());
    assert!(Snowflake::from_str("").is_err());
    assert!(Snowflake::from_str("+").is_err());
    assert!(Snowflake::from_str("-1").is_err());
    assert!(Snowflake::from_str("18446744073709551616").is_err());
    assert_eq!(Snowflake::from_str("18446744073709551615").unwrap().to_u64(), u64::MAX);
    assert_eq!(Snowflake::new(9876543210).unwrap().to_string(), "9876543210");
}
