use client_sdk::models::bot::SplitBotToken;
use client_sdk::models::sf::Snowflake;

#[test]
fn test_splitbottoken_bytes() {
    let token = SplitBotToken { id: Snowflake::null(), ts: 0, hmac: [u8::MAX; 20] };

    let bytes = token.to_bytes();

    assert_eq!(token, SplitBotToken::try_from(&bytes[..]).unwrap());

    println!("{}", token.format().as_str());
}

#[test]
fn bytes_are_little_endian_parts() {
    let token = SplitBotToken { id: Snowflake::new(0x0102).unwrap(), ts: 7, hmac: [9u8; 20] };
    let bytes = token.to_bytes();
    assert_eq!(&bytes[0..8], &[2, 1, 0, 0, 0, 0, 0, 0]);
    assert_eq!(&bytes[8..16], &[7, 0, 0, 0, 0, 0, 0, 0]);
    assert_eq!(&bytes[16..36], &[9u8; 20]);
}

#[test]
fn formatted_token_reads_back() {
    let token = SplitBotToken { id: Snowflake::new(123456789).unwrap(), ts: 987654321, hmac: [0xab; 20] };
    let text = token.format();
    assert_eq!(text.as_str().len(), 48);
    assert_eq!(SplitBotToken::from_str(text.as_str()), Ok(token));
}

#[test]
fn try_from_rejects_bad_input() {
    assert!(SplitBotToken::try_from(&[0u8; 35][..]).is_err());
    // a zero id is not a snowflake
    assert!(SplitBotToken::try_from(&[0u8; 36][..]).is_err());
    assert!(SplitBotToken::from_str("too short").is_err());
    assert!(SplitBotToken::from_str("!!!!!!!!!!!!!!!!!!!!!!!!!!!!!!!!!!!!!!!!!!!!!!!!").is_err());
}
