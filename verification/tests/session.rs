use std::collections::HashMap;

use rust_panel::api::auth::{generate_jwt, live_subject, token_subject};
use rust_panel::api::middleware::guard_token_valid;
use rust_panel::errors::handlers::CustomError;

fn token(secret: &[u8], claims: &HashMap<&str, serde_json::Value>) -> String {
    jsonwebtoken::encode(
        &jsonwebtoken::Header::new(jsonwebtoken::Algorithm::HS256),
        claims,
        &jsonwebtoken::EncodingKey::from_secret(secret),
    )
    .unwrap()
}

fn claims(sub: &str, exp: u64) -> HashMap<&'static str, serde_json::Value> {
    let mut c = HashMap::new();
    c.insert("sub", serde_json::Value::from(sub));
    c.insert("exp", serde_json::Value::from(exp));
    c
}

#[test]
fn live_subject_leeway() {
    assert_eq!(live_subject(Some((String::from("u"), 1000)), 1060), Some(String::from("u")));
    assert_eq!(live_subject(Some((String::from("u"), 1000)), 1061), None);
    assert_eq!(live_subject(Some((String::from("u"), 5000)), 10), Some(String::from("u")));
    assert_eq!(live_subject(None, 10), None);
}

#[test]
fn session_token_round_trip() {
    let t = token(b"secret", &claims("{\"id\":1}", 2_000_000_000));
    assert_eq!(token_subject(&t, b"secret", 1_700_000_000), Some(String::from("{\"id\":1}")));
    assert_eq!(token_subject(&t, b"other", 1_700_000_000), None);
    assert_eq!(token_subject(&t, b"secret", 2_000_000_061), None);
    assert_eq!(token_subject(&t, b"secret", 2_000_000_060), Some(String::from("{\"id\":1}")));
    assert_eq!(token_subject("not.a.token", b"secret", 1_700_000_000), None);
}

#[test]
fn session_token_needs_subject_and_expiry() {
    let mut no_sub = claims("x", 2_000_000_000);
    no_sub.remove("sub");
    assert_eq!(token_subject(&token(b"k", &no_sub), b"k", 1_700_000_000), None);
    let mut no_exp = claims("x", 0);
    no_exp.remove("exp");
    assert_eq!(token_subject(&token(b"k", &no_exp), b"k", 1_700_000_000), None);
}

#[test]
fn guard_refuses_every_token() {
    let t = token(b"your_secret", &claims("x", 2_000_000_000));
    assert!(!guard_token_valid(&t));
    assert!(!guard_token_valid("abc"));
}

#[test]
fn custom_error_whole_answer() {
    let e = CustomError::new(404, String::from("not here"));
    assert_eq!(e.error_response(), (404, 404, String::from("not here")));
    let a = CustomError::new(503, String::from("db down"));
    let b = CustomError::new(503, String::from("disk full"));
    assert_eq!(a.error_response(), b.error_response());
    assert_eq!(a.error_response(), (503, 503, String::from("Internal server error")));
    let odd = CustomError::new(1000, String::from("odd"));
    assert_eq!(odd.error_response(), (500, 1000, String::from("Internal server error")));
}

#[test]
fn issued_token_reads_back() {
    let subject = "{\"id\":3,\"username\":\"admin\"}";
    let t = generate_jwt(subject, 1_700_000_000, 2, b"key");
    let exp = 1_700_000_000 + 2 * 3600;
    assert_eq!(token_subject(&t, b"key", 1_700_000_000), Some(String::from(subject)));
    assert_eq!(token_subject(&t, b"key", exp + 60), Some(String::from(subject)));
    assert_eq!(token_subject(&t, b"key", exp + 61), None);
    assert_eq!(token_subject(&t, b"other key", 1_700_000_000), None);
    assert_ne!(generate_jwt(subject, 1_700_000_000, 2, b"key"), generate_jwt(subject, 1_700_000_001, 2, b"key"));
}

fn base64url_decode(text: &str) -> Vec<u8> {
    let alphabet = "ABCDEFGHIJKLMNOPQRSTUVWXYZabcdefghijklmnopqrstuvwxyz0123456789-_";
    let mut bits: u32 = 0;
    let mut count = 0;
    let mut out = Vec::new();
    for c in text.chars() {
        bits = (bits << 6) | alphabet.find(c).unwrap() as u32;
        count += 6;
        if count >= 8 {
            count -= 8;
            out.push((bits >> count) as u8);
            bits &= (1 << count) - 1;
        }
    }
    out
}

#[test]
fn issued_token_claims_order() {
    let t = generate_jwt("admin", 1_700_000_000, 1, b"key");
    let payload = t.split('.').nth(1).unwrap();
    let json = String::from_utf8(base64url_decode(payload)).unwrap();
    assert_eq!(json, "{\"sub\":\"admin\",\"exp\":1700003600}");
}
