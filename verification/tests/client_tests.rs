use arpstore_client::client::Client;
use arpstore_client::decfmt::i64_to_dec;
use arpstore_client::hexfmt::bytes_to_hex;
use arpstore_client::payload::json_escape;
use arpstore_client::signing::create_signature;

#[test]
fn signature_is_deterministic() {
    let a = create_signature("secret", "device", "data", "1700000000");
    let b = create_signature("secret", "device", "data", "1700000000");
    assert_eq!(a, b);
    assert_eq!(a.len(), 64);
}

#[test]
fn signature_changes_with_any_input() {
    let base = create_signature("secret", "device", "data", "1700000000");
    assert_ne!(base, create_signature("Secret", "device", "data", "1700000000"));
    assert_ne!(base, create_signature("secret", "devicf", "data", "1700000000"));
    assert_ne!(base, create_signature("secret", "device", "datb", "1700000000"));
    assert_ne!(base, create_signature("secret", "device", "data", "1700000001"));
}

#[test]
fn signature_known_vector() {
    // The four inputs concatenate to the bytes of "abc", whose SHA-256
    // digest is a published test vector.
    let sig = create_signature("", "", "", "abc");
    assert_eq!(
        sig,
        "ba7816bf8f01cfea414140de5dae2223b00361a396177a9cb410ff61f20015ad"
    );
}

#[test]
fn signature_moves_between_fields_differ() {
    // The construction has no separators, so moving a byte across a field
    // boundary keeps the digest equal: "ab" + "c" and "a" + "bc" hash alike.
    let a = create_signature("ab", "c", "", "x");
    let b = create_signature("a", "bc", "", "x");
    assert_eq!(a, b);
}

#[test]
fn signature_is_lowercase_hex() {
    let sig = create_signature("k", "d", "", "0");
    for c in sig.chars() {
        assert!(c.is_ascii_hexdigit());
        assert!(!c.is_ascii_uppercase());
    }
}

#[test]
fn hex_rendering_exact() {
    assert_eq!(bytes_to_hex(&[]), "");
    assert_eq!(bytes_to_hex(&[0x00, 0xff, 0x10, 0xab]), "00ff10ab");
}

#[test]
fn decimal_rendering_exact() {
    assert_eq!(i64_to_dec(0), "0");
    assert_eq!(i64_to_dec(7), "7");
    assert_eq!(i64_to_dec(1700000000), "1700000000");
    assert_eq!(i64_to_dec(-123), "-123");
    assert_eq!(i64_to_dec(i64::MAX), "9223372036854775807");
    assert_eq!(i64_to_dec(i64::MIN), "-9223372036854775808");
}

#[test]
fn decimal_rendering_matches_std() {
    for t in [0i64, 1, 9, 10, 99, 100, -1, -10, 1234567890123456789, -987654321] {
        assert_eq!(i64_to_dec(t), t.to_string());
    }
}

#[test]
fn json_escaping_exact() {
    assert_eq!(json_escape("plain"), "plain");
    assert_eq!(json_escape("a\"b"), "a\\\"b");
    assert_eq!(json_escape("a\\b"), "a\\\\b");
    assert_eq!(json_escape("a\nb\tc\rd"), "a\\nb\\tc\\rd");
    assert_eq!(json_escape("\u{8}\u{c}"), "\\b\\f");
    assert_eq!(json_escape("\u{1}\u{1f}"), "\\u0001\\u001f");
}

#[test]
fn prepared_body_is_exact() {
    let client = Client::new("https://store.example", "secret").data("extra");
    let sig = create_signature("secret", "devhash", "extra", "1700000000");
    let req = client.prepare_request("devhash", 1700000000, "Thu, 14 Nov 2024 00:00:00 +0000");
    assert_eq!(req.url, "https://store.example/activation_check");
    assert_eq!(req.api_key, "secret");
    assert_eq!(req.date, "Thu, 14 Nov 2024 00:00:00 +0000");
    let expected = format!(
        "{{\"device_hash\":\"devhash\",\"data\":\"extra\",\"timestamp\":1700000000,\"signature\":\"{}\"}}",
        sig
    );
    assert_eq!(req.body, expected);
}

#[test]
fn prepared_body_parses_as_json() {
    let client = Client::new("https://store.example", "secret").data("line1\nline2");
    let req = client.prepare_request("devhash", 42, "date");
    let parsed: serde_json::Value = serde_json::from_str(&req.body).expect("body must be JSON");
    assert_eq!(parsed.get("device_hash").unwrap().as_str().unwrap(), "devhash");
    assert_eq!(parsed.get("data").unwrap().as_str().unwrap(), "line1\nline2");
    assert_eq!(parsed.get("timestamp").unwrap().as_i64().unwrap(), 42);
    let sig = parsed.get("signature").unwrap().as_str().unwrap();
    assert_eq!(sig, create_signature("secret", "devhash", "line1\nline2", "42"));
}

#[test]
fn built_request_signs_the_transmitted_timestamp() {
    // The timestamp is sampled once: the digits in the body and the digits
    // fed to the signature must be the same sample.
    let client = Client::new("https://store.example", "secret").data("d");
    let req = client.build_request("devhash");
    let parsed: serde_json::Value = serde_json::from_str(&req.body).unwrap();
    let ts = parsed.get("timestamp").unwrap().as_i64().unwrap();
    let sig = parsed.get("signature").unwrap().as_str().unwrap();
    assert_eq!(sig, create_signature("secret", "devhash", "d", &ts.to_string()));
}

#[test]
fn built_request_date_is_rfc2822() {
    let client = Client::new("https://store.example", "secret");
    let req = client.build_request("devhash");
    assert!(chrono::DateTime::parse_from_rfc2822(&req.date).is_ok());
}

#[test]
fn device_identity_is_lowercase_hex_when_available() {
    let client = Client::new("https://store.example", "secret");
    if let Ok(id) = client.device_identity() {
        assert_eq!(id.len(), 64);
        assert!(id.chars().all(|c| c.is_ascii_hexdigit() && !c.is_ascii_uppercase()));
    }
}

#[test]
fn client_configuration_defaults() {
    let client = Client::new("u", "k");
    assert_eq!(client.arp_url, "u");
    assert_eq!(client.subscription_key, "k");
    assert_eq!(client.data, "");
    let client = client.data("payload");
    assert_eq!(client.data, "payload");
    assert_eq!(client.subscription_key, "k");
}
