use client_sdk::models::auth::{AuthToken, BearerToken, InvalidAuthToken};

const USER_TOKEN: &str = "abcdefghijklmnopqrstuvwxyz01";
const BOT_TOKEN: &str = "abcdefghijklmnopqrstuvwxyz0123456789ABCDEFGHIJKL";

#[test]
fn bearer_header_parses() {
    let header = format!("Bearer {}", USER_TOKEN);
    match AuthToken::from_header(&header) {
        Ok(AuthToken::Bearer(t)) => assert_eq!(t.as_str(), USER_TOKEN),
        other => panic!("unexpected {:?}", other),
    }
}

#[test]
fn bot_header_parses_with_whitespace() {
    let header = format!("  Bot {}\n", BOT_TOKEN);
    match AuthToken::from_header(&header) {
        Ok(AuthToken::Bot(t)) => assert_eq!(t.as_str(), BOT_TOKEN),
        other => panic!("unexpected {:?}", other),
    }
}

#[test]
fn bad_headers_are_rejected() {
    assert!(matches!(AuthToken::from_header(USER_TOKEN), Err(InvalidAuthToken)));
    assert!(matches!(AuthToken::from_header(&format!("Bot {}", USER_TOKEN)), Err(InvalidAuthToken)));
    assert!(matches!(AuthToken::from_header(&format!("bearer {}", USER_TOKEN)), Err(InvalidAuthToken)));
    assert!(matches!(AuthToken::from_header(""), Err(InvalidAuthToken)));
}

#[test]
fn bare_tokens_by_length() {
    assert!(matches!(AuthToken::from_str(USER_TOKEN), Ok(AuthToken::Bearer(_))));
    assert!(matches!(AuthToken::from_str(&format!(" {} ", BOT_TOKEN)), Ok(AuthToken::Bot(_))));
    assert!(matches!(AuthToken::from_str("short"), Err(InvalidAuthToken)));
}

#[test]
fn raw_header_is_prefix_and_token() {
    let t = AuthToken::Bearer(BearerToken::new(USER_TOKEN));
    assert_eq!(t.raw_header().as_str(), format!("Bearer {}", USER_TOKEN));
    let b = AuthToken::from_str(BOT_TOKEN).unwrap();
    assert_eq!(b.raw_header().as_str(), format!("Bot {}", BOT_TOKEN));
    assert_eq!(b.as_str(), BOT_TOKEN);
}

#[test]
fn header_of_token_reads_back() {
    let t = AuthToken::from_str(BOT_TOKEN).unwrap();
    let header = t.raw_header();
    match AuthToken::from_header(header.as_str()) {
        Ok(AuthToken::Bot(b)) => assert_eq!(b.as_str(), BOT_TOKEN),
        other => panic!("unexpected {:?}", other),
    }
}

#[test]
fn header_value_is_sensitive() {
    let t = AuthToken::from_str(USER_TOKEN).unwrap();
    let h = t.headervalue().unwrap();
    assert!(h.is_sensitive());
    assert_eq!(h.as_bytes(), format!("Bearer {}", USER_TOKEN).as_bytes());
    let bad = AuthToken::Bearer(BearerToken::new("abcdefghijklmnopqrstuvwxyz0\n"));
    assert!(bad.headervalue().is_err());
}

#[test]
fn exact_tokens_are_not_trimmed() {
    assert!(matches!(AuthToken::from_token(USER_TOKEN), Ok(AuthToken::Bearer(_))));
    assert!(matches!(AuthToken::from_token(BOT_TOKEN), Ok(AuthToken::Bot(_))));
    assert!(matches!(AuthToken::from_token(&format!(" {}", USER_TOKEN)), Err(InvalidAuthToken)));
}

#[test]
fn token_text_is_header() {
    let t = AuthToken::from_str(BOT_TOKEN).unwrap();
    assert_eq!(t.to_string(), format!("Bot {}", BOT_TOKEN));
}

#[test]
fn raw_header_reads_back_as_the_same_token() {
    for t in [AuthToken::from_str(USER_TOKEN).unwrap(), AuthToken::from_str(BOT_TOKEN).unwrap()] {
        let header = t.raw_header();
        let back = AuthToken::from_header(header.as_str()).unwrap();
        assert_eq!(std::mem::discriminant(&back), std::mem::discriminant(&t));
        assert_eq!(back.as_str(), t.as_str());
    }
}
