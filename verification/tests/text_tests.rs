use dns_sync::Credentials;
use dns_sync::errors::{ConfigField, SyncError, SyncStep};
use dns_sync::reconcile::{update_payload, zone_lookup_url, record_lookup_url, update_url,
    auth_header_lines};
use dns_sync::text::{trim, str_eq};

#[test]
fn trim_strips_both_ends() {
    assert_eq!(trim("  a b\t\n"), String::from("a b"));
    assert_eq!(trim("203.0.113.7\n"), String::from("203.0.113.7"));
    assert_eq!(trim("no-space"), String::from("no-space"));
}

#[test]
fn trim_of_whitespace_only_is_empty() {
    assert_eq!(trim(""), String::from(""));
    assert_eq!(trim(" \t\r\n "), String::from(""));
}

#[test]
fn trim_keeps_inner_whitespace() {
    assert_eq!(trim(" a  b "), String::from("a  b"));
}

#[test]
fn str_eq_compares_contents() {
    assert!(str_eq("abc", "abc"));
    assert!(!str_eq("abc", "abd"));
    assert!(!str_eq("abc", "abcd"));
    assert!(str_eq("", ""));
}

#[test]
fn payload_writes_the_documented_shape() {
    assert_eq!(
        update_payload("example.com", "5.6.7.8"),
        String::from(
            "{\"type\":\"A\",\"name\":\"example.com\",\"content\":\"5.6.7.8\",\"ttl\":1,\"proxied\":false}"
        )
    );
}

#[test]
fn payload_escapes_like_a_json_serializer() {
    let built = update_payload("ex\"am\\ple.com", "1.2\n3");
    assert_eq!(
        built,
        String::from(
            "{\"type\":\"A\",\"name\":\"ex\\\"am\\\\ple.com\",\"content\":\"1.2\\n3\",\"ttl\":1,\"proxied\":false}"
        )
    );
}

#[test]
fn payload_escapes_control_characters() {
    let built = update_payload("a\u{1}b", "c\u{1f}d");
    assert_eq!(
        built,
        String::from(
            "{\"type\":\"A\",\"name\":\"a\\u0001b\",\"content\":\"c\\u001fd\",\"ttl\":1,\"proxied\":false}"
        )
    );
}

#[test]
fn urls_embed_their_parts() {
    let creds = Credentials::new(
        String::from("x@y.z"),
        String::from("test-key-0123"),
        String::from("example.org"),
    );
    assert_eq!(
        zone_lookup_url(&creds),
        String::from("https://api.cloudflare.com/client/v4/zones?name=example.org&status=active")
    );
    assert_eq!(
        record_lookup_url(&creds, "Z9"),
        String::from(
            "https://api.cloudflare.com/client/v4/zones/Z9/dns_records?type=A&name=example.org"
        )
    );
    assert_eq!(
        update_url("Z9", "R3"),
        String::from("https://api.cloudflare.com/client/v4/zones/Z9/dns_records/R3")
    );
}

#[test]
fn auth_headers_carry_the_credentials() {
    let creds = Credentials::new(
        String::from("x@y.z"),
        String::from("test-key-0123"),
        String::from("example.org"),
    );
    assert_eq!(
        auth_header_lines(&creds),
        vec![
            String::from("X-Auth-Email: x@y.z"),
            String::from("X-Auth-Key: test-key-0123"),
            String::from("Content-Type: application/json"),
        ]
    );
}

#[test]
fn missing_configuration_is_reported_in_order() {
    match Credentials::from_values(None, Some(String::from("k")), Some(String::from("d"))) {
        Err(SyncError::ConfigurationError(ConfigField::Email)) => {},
        other => panic!("expected the email to be missing, got {:?}", other),
    }
    match Credentials::from_values(Some(String::from("e")), None, None) {
        Err(SyncError::ConfigurationError(ConfigField::ApiKey)) => {},
        other => panic!("expected the key to be missing, got {:?}", other),
    }
    match Credentials::from_values(Some(String::from("e")), Some(String::from("k")), None) {
        Err(SyncError::ConfigurationError(ConfigField::Domain)) => {},
        other => panic!("expected the domain to be missing, got {:?}", other),
    }
    let creds =
        Credentials::from_values(Some(String::from("e")), Some(String::from("k")), Some(String::from("d")))
            .unwrap();
    assert_eq!(creds.email, "e");
    assert_eq!(creds.api_key, "k");
    assert_eq!(creds.domain, "d");
}

#[test]
fn error_messages_name_the_failure() {
    assert_eq!(
        SyncError::ZoneNotFound { domain: String::from("example.com") }.message(),
        String::from("Zone not found for domain example.com")
    );
    assert_eq!(
        SyncError::RecordNotFound { domain: String::from("example.net") }.message(),
        String::from("A record not found for domain example.net")
    );
    assert_eq!(
        SyncError::ParseError(SyncStep::ZoneLookup).message(),
        String::from("Failed to parse zone lookup response")
    );
    assert_eq!(
        SyncError::ParseError(SyncStep::Update).message(),
        String::from("Failed to parse update response")
    );
    assert_eq!(
        SyncError::TransportError(SyncStep::RecordLookup).message(),
        String::from("Network request failed during the DNS record step")
    );
    assert_eq!(
        SyncError::ConfigurationError(ConfigField::Email).message(),
        String::from("Set CLOUDFLARE_EMAIL to your Cloudflare account email")
    );
}

#[test]
fn rejected_update_message_decodes_lossily() {
    let message = SyncError::UpdateRejected { raw: vec![0xff, b'x'] }.message();
    assert!(message.starts_with("Cloudflare API reported failure: "));
    assert!(message.contains('x'));
}
