use client_sdk::models::user_prefs::{UserPreference, UserPreferences, UserPrefsFlags};
use client_sdk::util::json::{JsonNumber, JsonValue};
use client_sdk::util::prefs::PreferenceErrorKind;

fn pint(n: u64) -> JsonValue {
    JsonValue::Number(JsonNumber::PosInt(n))
}

fn float(x: f64) -> JsonValue {
    JsonValue::Number(JsonNumber::Float(x.to_bits()))
}

#[test]
fn insert_and_get() {
    let mut prefs = UserPreferences::new();
    assert_eq!(prefs.len(), 0);
    prefs.insert(UserPreference::TabSize, pint(4));
    prefs.insert(UserPreference::TabSize, pint(8));
    prefs.insert(UserPreference::Pad, pint(2));
    assert_eq!(prefs.len(), 2);
    assert!(matches!(prefs.get(&UserPreference::TabSize), Some(JsonValue::Number(JsonNumber::PosInt(8)))));
    assert!(prefs.get(&UserPreference::Locale).is_none());
}

#[test]
fn validate_reports_the_bad_field() {
    let mut prefs = UserPreferences::new();
    prefs.insert(UserPreference::ChatFontSize, pint(16));
    assert!(prefs.validate().is_ok());

    prefs.insert(UserPreference::TabSize, pint(0));
    let err = prefs.validate().unwrap_err();
    assert_eq!(err.field, UserPreference::TabSize);
    assert!(matches!(err.kind, PreferenceErrorKind::InvalidValue));

    let mut typed = UserPreferences::new();
    typed.insert(UserPreference::FriendAdd, JsonValue::String("anyone".to_string()));
    let err = typed.validate().unwrap_err();
    assert!(matches!(err.kind, PreferenceErrorKind::InvalidType));
}

#[test]
fn temperature_range_and_types() {
    let mut prefs = UserPreferences::new();
    prefs.insert(UserPreference::Temp, float(7000.0));
    assert!(prefs.validate().is_ok());
    prefs.insert(UserPreference::Temp, float(100.0));
    assert!(prefs.validate().is_err());
    prefs.insert(UserPreference::Temp, pint(965));
    assert!(prefs.validate().is_ok());
    prefs.insert(UserPreference::TimeFormat, JsonValue::Bool(true));
    assert!(prefs.validate().is_ok());
}

#[test]
fn clean_removes_invalid_fields() {
    let mut prefs = UserPreferences::new();
    prefs.insert(UserPreference::TabSize, pint(100));
    prefs.insert(UserPreference::Pad, pint(8));
    prefs.insert(UserPreference::InvalidField, pint(1));
    prefs.insert(UserPreference::Locale, JsonValue::Null);
    prefs.clean();
    assert_eq!(prefs.len(), 1);
    assert!(prefs.validate().is_ok());
    assert!(matches!(prefs.get(&UserPreference::Pad), Some(JsonValue::Number(JsonNumber::PosInt(8)))));
}

#[test]
fn nullify_defaults_uses_flags() {
    let mut prefs = UserPreferences::new();
    prefs.insert(UserPreference::TabSize, pint(4));
    prefs.insert(UserPreference::ChatFontSize, pint(20));
    prefs.insert(UserPreference::Pad, pint(16));
    prefs.insert(UserPreference::Temp, float(7500.0));
    prefs.nullify_defaults();
    assert!(matches!(prefs.get(&UserPreference::TabSize), Some(JsonValue::Null)));
    assert!(matches!(prefs.get(&UserPreference::ChatFontSize), Some(JsonValue::Number(JsonNumber::PosInt(20)))));
    assert!(matches!(prefs.get(&UserPreference::Pad), Some(JsonValue::Null)));
    assert!(matches!(prefs.get(&UserPreference::Temp), Some(JsonValue::Null)));

    // in compact view the default padding is zero
    let mut compact = UserPreferences::new();
    compact.insert(UserPreference::Flags, pint(0x200));
    compact.insert(UserPreference::Pad, pint(16));
    compact.nullify_defaults();
    assert!(matches!(compact.get(&UserPreference::Pad), Some(JsonValue::Number(JsonNumber::PosInt(16)))));
}

#[test]
fn flags_default_and_given() {
    let prefs = UserPreferences::new();
    assert_eq!(prefs.flags(), UserPrefsFlags::default());
    let mut given = UserPreferences::new();
    given.insert(UserPreference::Flags, pint(0x200));
    assert_eq!(given.flags().bits(), 0x200);
}

#[test]
fn merge_prefers_new_values() {
    let mut a = UserPreferences::new();
    a.insert(UserPreference::TabSize, pint(4));
    a.insert(UserPreference::Pad, pint(2));
    let mut b = UserPreferences::new();
    b.insert(UserPreference::TabSize, pint(8));
    b.insert(UserPreference::Locale, pint(0));
    a.merge(&mut b);
    assert_eq!(a.len(), 3);
    assert_eq!(b.len(), 0);
    assert!(matches!(a.get(&UserPreference::TabSize), Some(JsonValue::Number(JsonNumber::PosInt(8)))));
    assert!(matches!(a.get(&UserPreference::Pad), Some(JsonValue::Number(JsonNumber::PosInt(2)))));
}

#[test]
fn preference_error_message() {
    let mut prefs = UserPreferences::new();
    prefs.insert(UserPreference::TabSize, pint(0));
    let err = prefs.validate().unwrap_err();
    assert_eq!(err.to_string(), "Preference Error: \"tab_size\" has an invalid value");
    let mut typed = UserPreferences::new();
    typed.insert(UserPreference::ChatFont, JsonValue::Bool(true));
    assert_eq!(typed.validate().unwrap_err().to_string(), "Preference Error: \"chat_font\" is invalid type");
}

#[test]
fn cloned_preferences_keep_fields() {
    let mut prefs = UserPreferences::new();
    prefs.insert(UserPreference::TabSize, pint(4));
    prefs.insert(UserPreference::TimeFormat, JsonValue::String("24h".to_string()));
    let copy = prefs.clone();
    assert_eq!(copy.len(), 2);
    assert!(matches!(copy.get(&UserPreference::TabSize), Some(JsonValue::Number(JsonNumber::PosInt(4)))));
    assert!(matches!(copy.get(&UserPreference::TimeFormat), Some(JsonValue::String(s)) if s == "24h"));
}

#[test]
fn fonts_must_be_in_the_list() {
    for code in [0u64, 1, 2, 3, 4, 30, 31] {
        let mut prefs = UserPreferences::new();
        prefs.insert(UserPreference::ChatFont, pint(code));
        prefs.insert(UserPreference::UiFont, pint(code));
        assert!(prefs.validate().is_ok(), "font {code}");
    }
    for code in [5u64, 10, 29, 32] {
        let mut prefs = UserPreferences::new();
        prefs.insert(UserPreference::ChatFont, pint(code));
        let err = prefs.validate().unwrap_err();
        assert_eq!(err.field, UserPreference::ChatFont);
        assert!(matches!(err.kind, PreferenceErrorKind::InvalidValue));
    }
}
