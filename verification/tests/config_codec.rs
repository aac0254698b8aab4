//! The claims codec, the configuration rules and the remaining helpers.

use rush::claims::{parse_claims, serialize_claims};
use rush::config::{parse_u16, Config, DatabaseType};
use rush::errors::Error;
use rush::google_ai_service::{Candidate, Content, GoogleAIResponse, Part, PromptFeedback};
use rush::server::Server;

#[test]
fn claims_payload_has_the_exact_canonical_bytes() {
    let payload = serialize_claims(1, 2, 3);
    assert_eq!(payload, b"{\"account_id\":1,\"exp\":3,\"nbf\":2}".to_vec());
    let large = serialize_claims(u64::MAX, 0, 86_400);
    assert_eq!(
        large,
        b"{\"account_id\":18446744073709551615,\"exp\":86400,\"nbf\":0}".to_vec()
    );
}

#[test]
fn claims_round_trip_recovers_the_claims() {
    let payload = serialize_claims(42, 1_000, 87_400);
    assert_eq!(parse_claims(&payload), Some((42, 1_000, 87_400)));
    let edge = serialize_claims(u64::MAX, u64::MAX, u64::MAX);
    assert_eq!(parse_claims(&edge), Some((u64::MAX, u64::MAX, u64::MAX)));
}

#[test]
fn malformed_payloads_are_rejected() {
    assert_eq!(parse_claims(b""), None);
    assert_eq!(parse_claims(b"{}"), None);
    assert_eq!(parse_claims(b"{\"account_id\":1}"), None);
    // non-canonical: leading zero
    assert_eq!(parse_claims(b"{\"account_id\":01,\"exp\":3,\"nbf\":2}"), None);
    // out of range
    assert_eq!(
        parse_claims(b"{\"account_id\":18446744073709551616,\"exp\":3,\"nbf\":2}"),
        None
    );
    // trailing garbage
    assert_eq!(parse_claims(b"{\"account_id\":1,\"exp\":3,\"nbf\":2}x"), None);
    // wrong field order
    assert_eq!(parse_claims(b"{\"account_id\":1,\"nbf\":2,\"exp\":3}"), None);
}

#[test]
fn port_strings_parse_like_decimal_numbers() {
    assert_eq!(parse_u16("8080"), Some(8080));
    assert_eq!(parse_u16("0"), Some(0));
    assert_eq!(parse_u16("007"), Some(7));
    assert_eq!(parse_u16("65535"), Some(65535));
    assert_eq!(parse_u16("65536"), None);
    assert_eq!(parse_u16(""), None);
    assert_eq!(parse_u16("12a"), None);
    assert_eq!(parse_u16("-1"), None);
}

#[test]
fn backend_names_parse_exactly() {
    assert_eq!(DatabaseType::parse("postgres"), Some(DatabaseType::Postgres));
    assert_eq!(DatabaseType::parse("memory"), Some(DatabaseType::Memory));
    assert_eq!(DatabaseType::parse("Postgres"), None);
    assert_eq!(DatabaseType::parse(""), None);
    assert_eq!(DatabaseType::parse("postgresql"), None);
}

fn defaults() -> Config {
    Config {
        log_level: "warn".to_string(),
        port: 8080,
        db_user: "postgres".to_string(),
        db_password: String::new(),
        db_host: "localhost".to_string(),
        db_port: 5432,
        db_name: "rush".to_string(),
        db_type: DatabaseType::Postgres,
    }
}

#[test]
fn resolve_takes_overrides_and_falls_back_to_defaults() {
    let resolved = Config::resolve(
        defaults(),
        Some("9999".to_string()),
        None,
        Some("sekrit".to_string()),
        Some("db.example".to_string()),
        None,
        None,
        Some("memory".to_string()),
    )
    .expect("resolve failed");
    assert_eq!(resolved.port, 9999);
    assert_eq!(resolved.db_user, "postgres");
    assert_eq!(resolved.db_password, "sekrit");
    assert_eq!(resolved.db_host, "db.example");
    assert_eq!(resolved.db_port, 5432);
    assert_eq!(resolved.db_name, "rush");
    assert_eq!(resolved.db_type, DatabaseType::Memory);
    assert_eq!(resolved.log_level, "warn");
}

#[test]
fn resolve_fails_without_a_database_password() {
    let r = Config::resolve(defaults(), None, None, None, None, None, None, None);
    assert!(r.is_none());
}

#[test]
fn resolve_fails_on_an_unparsable_port() {
    let r = Config::resolve(
        defaults(),
        Some("eighty".to_string()),
        None,
        Some("pw".to_string()),
        None,
        None,
        None,
        None,
    );
    assert!(r.is_none());
    let r2 = Config::resolve(
        defaults(),
        None,
        None,
        Some("pw".to_string()),
        None,
        Some("70000".to_string()),
        None,
        None,
    );
    assert!(r2.is_none());
}

#[test]
fn an_unknown_backend_override_falls_back_to_the_default() {
    let resolved = Config::resolve(
        defaults(),
        None,
        None,
        Some("pw".to_string()),
        None,
        None,
        None,
        Some("oracle".to_string()),
    )
    .expect("resolve failed");
    assert_eq!(resolved.db_type, DatabaseType::Postgres);
}

#[test]
fn server_holds_its_configuration() {
    let server = Server::new(defaults());
    assert_eq!(server.config.port, 8080);
    assert_eq!(server.config.db_name, "rush");
}

#[test]
fn error_messages_name_each_kind() {
    assert_eq!(Error::NotFound.message(), "entity not found");
    assert_eq!(Error::Unauthorized.message(), "not the owner of the resource");
    assert_eq!(Error::CannotDecryptToken.message(), "cannot decrypt token");
    assert_eq!(Error::WrongPassword.message(), "wrong password");
    assert_eq!(Error::HashingError.message(), "password hashing failed");
    assert_eq!(Error::StoreError.message(), "store failure");
    assert_eq!(Error::DuplicateAccount.message(), "account already registered");
}

#[test]
fn first_candidate_text_picks_the_generated_answer() {
    let reply = GoogleAIResponse {
        candidates: vec![Candidate {
            content: Content {
                parts: vec![Part { text: "an answer".to_string() }],
                role: "model".to_string(),
            },
            finish_reason: "STOP".to_string(),
            index: 0,
            safety_ratings: vec![],
        }],
        prompt_feedback: PromptFeedback { safety_ratings: vec![] },
    };
    assert_eq!(
        rush::google_ai_service::first_candidate_text(&reply),
        Some("an answer".to_string())
    );
    let empty = GoogleAIResponse {
        candidates: vec![],
        prompt_feedback: PromptFeedback { safety_ratings: vec![] },
    };
    assert_eq!(rush::google_ai_service::first_candidate_text(&empty), None);
}
