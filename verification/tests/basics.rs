use rv_backend::text::{chars_of, same_text, string_from_chars};
use rv_backend::actions::Actions;
use rv_backend::config::{salt_from_text, AppConfig, EnvVars};
use rv_backend::decimal::{format_i32, parse_i32, parse_i64, parse_u16};
use rv_backend::email::{first_name, is_whitespace, temp_password_bodies};
use rv_backend::error::{AppError, InternalError};
use rv_backend::user::{role_name, PrivacyLevel, Role};

#[test]
fn action_codes_follow_declaration_order() {
    assert_eq!(i32::from(Actions::ItemCreated), 1);
    assert_eq!(i32::from(Actions::BoughtBy), 5);
    assert_eq!(i32::from(Actions::DepositedMoney), 17);
    assert_eq!(i32::from(Actions::DepositedMoneyCash), 26);
    assert_eq!(i32::from(Actions::DepositedMoneyBankTransfer), 27);
    assert_eq!(i32::from(Actions::ProductReturned), 28);
    assert_eq!(i32::from(Actions::ProductBuyIn), 29);
}

#[test]
fn action_codes_are_distinct() {
    let all = vec![
        Actions::ItemCreated, Actions::ChangedDescription, Actions::ChangedWeight,
        Actions::ChangedProductGroup, Actions::BoughtBy, Actions::ChangedBuyprice,
        Actions::ChangedSellprice, Actions::ChangedCountOrInventoriedButNotBought,
        Actions::UserCreated, Actions::LoggedIn, Actions::LoggedOut, Actions::LoginFailed,
        Actions::FailedPasswordChange, Actions::AdminChangedPassword, Actions::SelfChangedPassword,
        Actions::WithdrewMoney, Actions::DepositedMoney, Actions::ChangedRole, Actions::ChangedName,
        Actions::ChangedUnivident, Actions::ChangedBuzzerlimit, Actions::ChangedFgcolor,
        Actions::ChangedBgcolor, Actions::BoxCreated, Actions::ChangedBoxItemCount,
        Actions::DepositedMoneyCash, Actions::DepositedMoneyBankTransfer, Actions::ProductReturned,
        Actions::ProductBuyIn,
    ];
    let codes: Vec<i32> = all.into_iter().map(i32::from).collect();
    for (i, c) in codes.iter().enumerate() {
        assert_eq!(*c, i as i32 + 1);
    }
}

#[test]
fn error_responses() {
    let (s, b) = AppError::NotFound("Purchase was not found".to_string()).to_response();
    assert_eq!((s, b.error.as_str(), b.message.as_str()), (404, "not_found", "Purchase was not found"));
    let (s, b) = AppError::NotAuthorized.to_response();
    assert_eq!((s, b.error.as_str(), b.message.as_str()), (403, "not_authorized", "Not authorized"));
    let (s, b) = AppError::InsufficientFunds.to_response();
    assert_eq!((s, b.error.as_str(), b.message.as_str()), (403, "insufficient_funds", "Insufficient funds"));
    let (s, b) = AppError::Forbidden.to_response();
    assert_eq!((s, b.error.as_str(), b.message.as_str()), (403, "forbidden", "Forbidden"));
    let (s, b) = AppError::InvalidCredentials("Invalid rfid".to_string()).to_response();
    assert_eq!((s, b.error.as_str(), b.message.as_str()), (401, "invalid_credentials", "Invalid rfid"));
    let (s, b) = AppError::InvalidToken.to_response();
    assert_eq!((s, b.error.as_str(), b.message.as_str()), (401, "invalid_token", "Invalid authorization token"));
    let (s, b) = AppError::IdentifierTaken("Email is already in use.".to_string()).to_response();
    assert_eq!((s, b.error.as_str(), b.message.as_str()), (409, "identifier_taken", "Email is already in use."));
    let (s, b) = AppError::BadRequest.to_response();
    assert_eq!((s, b.error.as_str(), b.message.as_str()), (400, "bad_request", "Bad request"));
    let (s, b) = AppError::Internal(InternalError::UserNotFound(3)).to_response();
    assert_eq!((s, b.error.as_str(), b.message.as_str()), (500, "internal_error", "An internal error occurred"));
}

#[test]
fn parse_u16_follows_std() {
    for t in ["0", "4040", "+12", "65535", "007", "", "+", "-1", "65536", "12a", " 1", "-0", "１"] {
        assert_eq!(parse_u16(t), t.parse::<u16>().ok(), "text {:?}", t);
    }
    assert_eq!(parse_u16("8080"), Some(8080));
    assert_eq!(parse_u16("70000"), None);
}

#[test]
fn parse_i32_follows_std() {
    for t in ["-2147483648", "2147483647", "2147483648", "-2147483649", "-", "+-1", "--1", "-0", "42", "x"] {
        assert_eq!(parse_i32(t), t.parse::<i32>().ok(), "text {:?}", t);
    }
    assert_eq!(parse_i32("-17"), Some(-17));
}

#[test]
fn parse_i64_follows_std() {
    for t in ["9223372036854775807", "-9223372036854775808", "9223372036854775808", "3600", "-60", "", "1e3"] {
        assert_eq!(parse_i64(t), t.parse::<i64>().ok(), "text {:?}", t);
    }
    assert_eq!(parse_i64("7200"), Some(7200));
}

#[test]
fn format_i32_matches_to_string() {
    for x in [0, 7, -7, 10, 42, -42, 1000, i32::MAX, i32::MIN] {
        assert_eq!(format_i32(x), x.to_string());
    }
    assert_eq!(format_i32(-305), "-305");
}

#[test]
fn decimal_text_reads_back() {
    for x in [0, 1, -1, 99, -100, 123456, i32::MAX, i32::MIN] {
        assert_eq!(parse_i32(format_i32(x).as_str()), Some(x));
    }
}

fn vars(database_url: Option<&str>) -> EnvVars {
    EnvVars {
        host: None,
        port: None,
        environment: None,
        database_url: database_url.map(|s| s.to_string()),
        jwt_secret: None,
        jwt_expiry: None,
        rv_terminal_secret: None,
        rfid_hash: None,
        smtp_host: None,
    }
}

#[test]
fn config_defaults() {
    let c = AppConfig::from_vars(vars(Some("postgres://db"))).unwrap();
    assert_eq!(c.host, "0.0.0.0");
    assert_eq!(c.port, 4040);
    assert_eq!(c.environment, "development");
    assert_eq!(c.database_url, "postgres://db");
    assert_eq!(c.jwt_secret, "unsecure");
    assert_eq!(c.jwt_expiry, 3600);
    assert_eq!(c.rv_terminal_secret, "unsecure");
    assert_eq!(c.rfid_salt, [0u8; 16]);
    assert_eq!(c.smtp_host, "localhost");
}

#[test]
fn config_requires_database_url() {
    assert!(AppConfig::from_vars(vars(None)).is_none());
}

#[test]
fn config_reads_values() {
    let mut v = vars(Some("db"));
    v.host = Some("127.0.0.1".to_string());
    v.port = Some("8080".to_string());
    v.jwt_expiry = Some("60".to_string());
    v.jwt_secret = Some("s3".to_string());
    v.rv_terminal_secret = Some("terminal".to_string());
    v.environment = Some("production".to_string());
    v.rfid_hash = Some("abc".to_string());
    let c = AppConfig::from_vars(v).unwrap();
    assert_eq!(c.host, "127.0.0.1");
    assert_eq!(c.port, 8080);
    assert_eq!(c.jwt_expiry, 60);
    assert_eq!(c.jwt_secret, "s3");
    assert_eq!(c.rv_terminal_secret, "terminal");
    assert_eq!(c.environment, "production");
    assert_eq!(c.rfid_salt, [97, 98, 99, 0, 0, 0, 0, 0, 0, 0, 0, 0, 0, 0, 0, 0]);
}

#[test]
fn config_falls_back_on_unreadable_numbers() {
    let mut v = vars(Some("db"));
    v.port = Some("99999".to_string());
    v.jwt_expiry = Some("soon".to_string());
    let c = AppConfig::from_vars(v).unwrap();
    assert_eq!(c.port, 4040);
    assert_eq!(c.jwt_expiry, 3600);
}

#[test]
fn salt_takes_first_sixteen_bytes() {
    assert_eq!(salt_from_text("0123456789abcdefXYZ"), *b"0123456789abcdef");
    assert_eq!(salt_from_text(""), [0u8; 16]);
    assert_eq!(salt_from_text("ä"), [0xc3, 0xa4, 0, 0, 0, 0, 0, 0, 0, 0, 0, 0, 0, 0, 0, 0]);
}

#[test]
fn role_codes() {
    assert_eq!(Role::from(1), Role::Admin);
    assert_eq!(Role::from(7), Role::Inactive);
    assert_eq!(Role::from(2), Role::User);
    assert_eq!(Role::from(5), Role::User);
    assert_eq!(i32::from(Role::Admin), 1);
    assert_eq!(i32::from(Role::User), 2);
    assert_eq!(i32::from(Role::Inactive), 7);
    for r in [Role::Admin, Role::User, Role::Inactive] {
        assert_eq!(Role::from(i32::from(r)), r);
    }
    assert_eq!(role_name(Role::Admin), "Admin");
    assert_eq!(role_name(Role::User), "User");
    assert_eq!(role_name(Role::Inactive), "Inactive");
}

#[test]
fn privacy_codes() {
    assert_eq!(PrivacyLevel::from(0), PrivacyLevel::NoLimits);
    assert_eq!(PrivacyLevel::from(1), PrivacyLevel::HideUsername);
    assert_eq!(PrivacyLevel::from(2), PrivacyLevel::HideAll);
    assert_eq!(PrivacyLevel::from(9), PrivacyLevel::NoLimits);
    assert_eq!(PrivacyLevel::from(-1), PrivacyLevel::NoLimits);
    for p in [PrivacyLevel::NoLimits, PrivacyLevel::HideUsername, PrivacyLevel::HideAll] {
        assert_eq!(PrivacyLevel::from(i32::from(p)), p);
    }
}

#[test]
fn first_names() {
    assert_eq!(first_name("Matti Meikäläinen"), "Matti");
    assert_eq!(first_name("  \t Maija  Mehiläinen"), "Maija");
    assert_eq!(first_name("Solo"), "Solo");
    assert_eq!(first_name(""), "No name");
    assert_eq!(first_name(" \u{3000}\u{a0} "), "No name");
    assert_eq!(first_name("Anna\u{2003}Liisa"), "Anna");
    for t in ["Matti Meikäläinen", "  a b", "", " \u{85}x", "\u{200b}zero width"] {
        assert_eq!(first_name(t), t.split_whitespace().next().unwrap_or("No name"));
    }
}

#[test]
fn whitespace_matches_std() {
    for c in ['\t', '\n', '\u{b}', '\u{c}', '\r', ' ', '\u{85}', '\u{a0}', '\u{1680}', '\u{2000}', '\u{200a}',
        '\u{200b}', '\u{2028}', '\u{2029}', '\u{202f}', '\u{205f}', '\u{3000}', 'a', '\u{1c}', '\u{feff}'] {
        assert_eq!(is_whitespace(c), c.is_whitespace(), "char {:?}", c);
    }
}

#[test]
fn text_helpers() {
    assert_eq!(chars_of("aä€"), vec!['a', 'ä', '€']);
    assert_eq!(string_from_chars(&vec!['x', 'ö', 'y']), "xöy");
    assert!(same_text("abc", "abc"));
    assert!(!same_text("abc", "abd"));
    assert!(!same_text("abc", "ab"));
    assert!(same_text("", ""));
}

#[test]
fn temp_password_mail_bodies() {
    let r = temp_password_bodies(
        "  Matti Meikäläinen",
        "matti",
        "s3cr3t",
        "Hei {{ name }}! Käyttäjä {{ username }}, salasana {{ temp_password }}.",
        "<p>{{ name }} / {{ username }} / {{ temp_password }}</p>",
    );
    assert_eq!(
        r,
        Some((
            "Hei Matti! Käyttäjä matti, salasana s3cr3t.".to_string(),
            "<p>Matti / matti / s3cr3t</p>".to_string()
        ))
    );
    let r = temp_password_bodies("", "u", "p", "{{ name }}", "{{ username }}{{ temp_password }}");
    assert_eq!(r, Some(("No name".to_string(), "up".to_string())));
}

#[test]
fn temp_password_mail_template_errors() {
    assert_eq!(temp_password_bodies("A", "u", "p", "{{ name ", "ok"), None);
    assert_eq!(temp_password_bodies("A", "u", "p", "ok", "{% if %}"), None);
}
