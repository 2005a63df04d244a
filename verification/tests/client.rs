use base64::Engine;
use hmac::KeyInit;
use hmac::Mac;

use switchbot_client::decimal::i64_to_decimal;
use switchbot_client::json::control_body;
use switchbot_client::json::json_escape_str;
use switchbot_client::request::Action;
use switchbot_client::request::Method;
use switchbot_client::request::api_root;
use switchbot_client::request::build_headers;
use switchbot_client::request::build_request;
use switchbot_client::request::gen_list_uri;
use switchbot_client::request::gen_status_uri;
use switchbot_client::request::gent_control_uri;
use switchbot_client::request::method_for;
use switchbot_client::signer::SigningError;
use switchbot_client::signer::compute_signature;
use switchbot_client::signer::signing_input;

/// HMAC-SHA256 then standard padded base64, computed directly with the
/// crypto crates, independently of the library.
fn reference_signature(secret: &str, payload: &str) -> String {
    let mut mac = hmac::Hmac::<sha2::Sha256>::new_from_slice(secret.as_bytes()).unwrap();
    mac.update(payload.as_bytes());
    let tag = mac.finalize().into_bytes();
    base64::engine::general_purpose::STANDARD.encode(tag)
}

#[test]
fn decimal_rendering() {
    assert_eq!(i64_to_decimal(0), "0");
    assert_eq!(i64_to_decimal(7), "7");
    assert_eq!(i64_to_decimal(1000), "1000");
    assert_eq!(i64_to_decimal(1700000000123), "1700000000123");
    assert_eq!(i64_to_decimal(-5), "-5");
    assert_eq!(i64_to_decimal(i64::MAX), "9223372036854775807");
    assert_eq!(i64_to_decimal(i64::MIN), "-9223372036854775808");
}

#[test]
fn signing_input_concatenation_order() {
    assert_eq!(signing_input("abc", 1000, "xyz"), "abc1000xyz");
    assert_eq!(signing_input("", 0, ""), "0");
    assert_eq!(signing_input("tok", -42, "n"), "tok-42n");
}

#[test]
fn signature_matches_independent_computation() {
    let sig = compute_signature("abc", 1000, "xyz", "k").unwrap();
    assert_eq!(sig, reference_signature("k", "abc1000xyz"));
}

#[test]
fn signature_deterministic() {
    let a = compute_signature("token", 1700000000123, "7a9f", "secret").unwrap();
    let b = compute_signature("token", 1700000000123, "7a9f", "secret").unwrap();
    assert_eq!(a, b);
}

#[test]
fn signature_sensitive_to_each_input() {
    let base = compute_signature("token", 1000, "nonce", "secret").unwrap();
    assert_ne!(base, compute_signature("token2", 1000, "nonce", "secret").unwrap());
    assert_ne!(base, compute_signature("token", 1001, "nonce", "secret").unwrap());
    assert_ne!(base, compute_signature("token", 1000, "nonce2", "secret").unwrap());
    assert_ne!(base, compute_signature("token", 1000, "nonce", "secret2").unwrap());
}

#[test]
fn signature_is_valid_base64_of_32_bytes() {
    let sig = compute_signature("token", 1700000000123, "7a9f", "secret").unwrap();
    assert_eq!(sig.len(), 44);
    assert_eq!(sig.len() % 4, 0);
    let raw = base64::engine::general_purpose::STANDARD
        .decode(sig.as_bytes())
        .unwrap();
    assert_eq!(raw.len(), 32);
}

#[test]
fn empty_secret_is_rejected() {
    let r = compute_signature("token", 1000, "nonce", "");
    assert_eq!(r, Err(SigningError::EmptyKey));
    assert_eq!(
        SigningError::EmptyKey.message(),
        "empty secret cannot be used as an HMAC key"
    );
}

#[test]
fn uri_construction() {
    let root = api_root();
    assert_eq!(root, "https://api.switch-bot.com/v1.1/devices");
    assert_eq!(gen_list_uri(root), "https://api.switch-bot.com/v1.1/devices/");
    assert_eq!(
        gen_status_uri(root, &String::from("D1")),
        "https://api.switch-bot.com/v1.1/devices/D1/status"
    );
    assert_eq!(
        gent_control_uri(root, &String::from("D1")),
        "https://api.switch-bot.com/v1.1/devices/D1/commands"
    );
}

#[test]
fn method_selection() {
    assert_eq!(method_for(&Action::List), Method::Get);
    assert_eq!(
        method_for(&Action::Status {
            device_id: String::from("D1")
        }),
        Method::Get
    );
    assert_eq!(
        method_for(&Action::Control {
            device_id: String::from("D1"),
            cmd: String::from("turnOn"),
            param: String::from("default")
        }),
        Method::Post
    );
}

#[test]
fn control_body_shape() {
    assert_eq!(
        control_body("turnOn", "default"),
        "{\"command\":\"turnOn\",\"parameter\":\"default\",\"commandType\":\"command\"}"
    );
}

#[test]
fn json_escaping() {
    assert_eq!(json_escape_str("plain"), "plain");
    assert_eq!(json_escape_str("a\"b"), "a\\\"b");
    assert_eq!(json_escape_str("a\\b"), "a\\\\b");
    assert_eq!(json_escape_str("a\nb\tc\rd"), "a\\nb\\tc\\rd");
    assert_eq!(json_escape_str("\u{8}\u{c}"), "\\b\\f");
    assert_eq!(json_escape_str("\u{1}\u{1f}"), "\\u0001\\u001f");
    assert_eq!(json_escape_str("snowman \u{2603}"), "snowman \u{2603}");
    assert_eq!(
        control_body("say \"hi\"", "line\nbreak"),
        "{\"command\":\"say \\\"hi\\\"\",\"parameter\":\"line\\nbreak\",\"commandType\":\"command\"}"
    );
}

#[test]
fn headers_are_exactly_six_and_consistent() {
    let sign = compute_signature("tok", 1000, "non", "sec").unwrap();
    let headers = build_headers("tok", 1000, "non", &sign);
    assert_eq!(headers.len(), 6);
    assert_eq!(headers[0], ("Authorization".to_string(), "tok".to_string()));
    assert_eq!(
        headers[1],
        ("Content-Type".to_string(), "application/json".to_string())
    );
    assert_eq!(headers[2], ("charset".to_string(), "utf8".to_string()));
    assert_eq!(headers[3], ("t".to_string(), "1000".to_string()));
    assert_eq!(headers[4], ("sign".to_string(), sign.clone()));
    assert_eq!(headers[5], ("nonce".to_string(), "non".to_string()));
}

#[test]
fn list_request_is_get_without_body() {
    let req = build_request(&Action::List, api_root(), "tok", "sec", 1000, "non").unwrap();
    assert_eq!(req.method, Method::Get);
    assert_eq!(req.uri, "https://api.switch-bot.com/v1.1/devices/");
    assert_eq!(req.headers.len(), 6);
    assert!(req.body.is_none());
}

#[test]
fn status_request_is_get_without_body() {
    let action = Action::Status {
        device_id: String::from("D1"),
    };
    let req = build_request(&action, api_root(), "tok", "sec", 1000, "non").unwrap();
    assert_eq!(req.method, Method::Get);
    assert_eq!(req.uri, "https://api.switch-bot.com/v1.1/devices/D1/status");
    assert!(req.body.is_none());
}

/// The control scenario: a POST to the commands URI whose body carries the
/// three JSON fields and whose `sign` header verifies against the `t` and
/// `nonce` headers also present in the request.
#[test]
fn control_request_signature_verifies_against_its_own_headers() {
    let action = Action::Control {
        device_id: String::from("D1"),
        cmd: String::from("turnOn"),
        param: String::from("default"),
    };
    let token = "tok";
    let secret = "sec";
    let req = build_request(&action, api_root(), token, secret, 1700000000123, "7a9f").unwrap();

    assert_eq!(req.method, Method::Post);
    assert_eq!(req.uri, "https://api.switch-bot.com/v1.1/devices/D1/commands");
    assert_eq!(
        req.body.as_deref(),
        Some("{\"command\":\"turnOn\",\"parameter\":\"default\",\"commandType\":\"command\"}")
    );

    assert_eq!(req.headers.len(), 6);
    let auth = &req.headers[0].1;
    let t_header = &req.headers[3].1;
    let sign_header = &req.headers[4].1;
    let nonce_header = &req.headers[5].1;
    assert_eq!(t_header, "1700000000123");
    assert_eq!(nonce_header, "7a9f");

    // Recompute the signature a server would, from the header values alone.
    let payload = format!("{}{}{}", auth, t_header, nonce_header);
    assert_eq!(sign_header, &reference_signature(secret, &payload));
}

#[test]
fn request_with_empty_secret_fails() {
    let r = build_request(&Action::List, api_root(), "tok", "", 1000, "non");
    assert!(matches!(r, Err(SigningError::EmptyKey)));
}
