use gift_cards::config::{get_config, parse_i64, parse_port, split_list, trim, ConfigError, ConfigVars};
use gift_cards::error::{AppError, ErrorResponse};
use gift_cards::ledger::LedgerError;
use gift_cards::model::{to_gift_card_response_dto, to_verification_dto, GiftCard};
use gift_cards::qr::{card_id_text, generate_gift_card_qr, parse_card_id, qr_content, svg_data_url};

fn vars() -> ConfigVars {
    ConfigVars {
        database_url: Some("mysql://localhost/cards".to_string()),
        server_host: None,
        server_port: None,
        jwt_secret: None,
        jwt_expiration: None,
        cors_allowed_origins: None,
    }
}

#[test]
fn config_defaults() {
    let c = get_config(vars()).unwrap();
    assert_eq!(c.database_url, "mysql://localhost/cards");
    assert_eq!(c.server_host, "0.0.0.0");
    assert_eq!(c.server_port, 8080);
    assert_eq!(c.jwt_secret, "your_jwt_secret_key_please_change_in_production");
    assert_eq!(c.jwt_expiration, 86400);
    assert_eq!(c.cors_allowed_origins, vec!["*".to_string()]);
}

#[test]
fn config_reads_values() {
    let mut v = vars();
    v.server_host = Some("127.0.0.1".to_string());
    v.server_port = Some("+3000".to_string());
    v.jwt_expiration = Some("-60".to_string());
    v.cors_allowed_origins = Some("http://a.com, http://b.com ,,".to_string());
    let c = get_config(v).unwrap();
    assert_eq!(c.server_host, "127.0.0.1");
    assert_eq!(c.server_port, 3000);
    assert_eq!(c.jwt_expiration, -60);
    assert_eq!(
        c.cors_allowed_origins,
        vec!["http://a.com".to_string(), "http://b.com".to_string(), String::new(), String::new()]
    );
}

#[test]
fn config_errors() {
    let mut v = vars();
    v.database_url = None;
    assert_eq!(get_config(v).unwrap_err(), ConfigError::MissingDatabaseUrl);
    let mut v = vars();
    v.server_port = Some("70000".to_string());
    assert_eq!(get_config(v).unwrap_err(), ConfigError::InvalidServerPort);
    let mut v = vars();
    v.jwt_expiration = Some("1.5".to_string());
    assert_eq!(get_config(v).unwrap_err(), ConfigError::InvalidJwtExpiration);
}

#[test]
fn number_parsing_matches_std() {
    for t in ["0", "65535", "65536", "+80", "-0", "", "+", "08080", " 80", "99999999999999999999"] {
        assert_eq!(parse_port(t), t.parse::<u16>().ok(), "{}", t);
    }
    for t in [
        "0", "-1", "+7", "-", "9223372036854775807", "9223372036854775808",
        "-9223372036854775808", "-9223372036854775809", "12a", "",
    ] {
        assert_eq!(parse_i64(t), t.parse::<i64>().ok(), "{}", t);
    }
}

#[test]
fn trimming_and_splitting() {
    assert_eq!(trim("  a b \t\n"), "a b");
    assert_eq!(trim("\u{3000}x\u{a0}"), "x");
    assert_eq!(trim("   "), "");
    assert_eq!(split_list("a,b"), vec!["a".to_string(), "b".to_string()]);
    assert_eq!(split_list(""), vec![String::new()]);
    assert_eq!(split_list(" x "), vec!["x".to_string()]);
}

#[test]
fn error_statuses_and_messages() {
    let e = AppError::NotFoundError("Gift card not found".to_string());
    assert_eq!(e.status_code(), 404);
    assert_eq!(e.message(), "Not found: Gift card not found");
    assert_eq!(AppError::ValidationError("x".to_string()).status_code(), 400);
    assert_eq!(AppError::DatabaseError("x".to_string()).status_code(), 500);
    assert_eq!(AppError::UnauthorizedError("x".to_string()).status_code(), 401);
    assert_eq!(AppError::InternalServerError("x".to_string()).status_code(), 500);
    assert_eq!(AppError::ConflictError("x".to_string()).status_code(), 409);
    let r = ErrorResponse::from_error(&AppError::ValidationError("Insufficient balance".to_string()));
    assert!(!r.success);
    assert_eq!(r.message, "Validation error: Insufficient balance");
    assert_eq!(r.error_code, Some("400 Bad Request".to_string()));
}

#[test]
fn ledger_errors_are_validation_errors() {
    match LedgerError::InsufficientBalance.to_app_error() {
        AppError::ValidationError(m) => assert_eq!(m, "Insufficient balance"),
        other => panic!("unexpected {:?}", other),
    }
    assert_eq!(LedgerError::PhoneMismatch.message(), "Phone number does not match");
}

#[test]
fn card_ids_round_trip() {
    let id: u128 = 0x550e8400_e29b_41d4_a716_446655440000;
    assert_eq!(card_id_text(id), "550e8400-e29b-41d4-a716-446655440000");
    assert_eq!(parse_card_id("550e8400-e29b-41d4-a716-446655440000"), Some(id));
    assert_eq!(parse_card_id("not-a-uuid"), None);
    assert_eq!(qr_content(id), "giftcard:550e8400-e29b-41d4-a716-446655440000");
}

#[test]
fn qr_codes() {
    assert_eq!(svg_data_url("abc"), "data:image/svg+xml;base64,YWJj");
    let url = generate_gift_card_qr(1).unwrap();
    assert!(url.starts_with("data:image/svg+xml;base64,"));
    assert!(url.len() > 100);
}

#[test]
fn response_forms() {
    let card = GiftCard {
        id: 9,
        issuer_name: "A".to_string(),
        recipient_name: "B".to_string(),
        recipient_phone: "1234567890".to_string(),
        balance: 10,
        initial_balance: 20,
        expiration_date: 500,
        is_accepted: true,
        is_active: true,
        created_at: 100,
        updated_at: 200,
    };
    let v = to_verification_dto(&card);
    assert_eq!(v.balance, 10);
    assert_eq!(v.expiration_date, 500);
    let r = to_gift_card_response_dto(card, Some("qr".to_string()));
    assert_eq!(r.initial_balance, 20);
    assert_eq!(r.qr_code, Some("qr".to_string()));
    assert_eq!(r.created_at, 100);
}
