use dns_sync::Credentials;
use dns_sync::errors::{SyncError, SyncStep};
use dns_sync::reconcile::{start_cycle, handle_response, HttpRequest, Method, Outcome, Phase, Step};

fn creds() -> Credentials {
    Credentials::new(
        String::from("admin@example.com"),
        String::from("test-key-0123"),
        String::from("example.com"),
    )
}

fn expected_headers() -> Vec<String> {
    vec![
        String::from("X-Auth-Email: admin@example.com"),
        String::from("X-Auth-Key: test-key-0123"),
        String::from("Content-Type: application/json"),
    ]
}

fn continue_step(r: Result<Step, SyncError>) -> (Phase, HttpRequest) {
    match r {
        Ok(Step::Continue { phase, request }) => (phase, request),
        other => panic!("expected a continuing step, got {:?}", other),
    }
}

#[test]
fn start_issues_zone_lookup() {
    let (_, request) = start_cycle(&creds());
    assert_eq!(request.method, Method::Get);
    assert_eq!(
        request.url,
        "https://api.cloudflare.com/client/v4/zones?name=example.com&status=active"
    );
    assert_eq!(request.headers, expected_headers());
    assert!(request.body.is_none());
}

#[test]
fn end_to_end_update() {
    let creds = creds();
    let (phase, request) = start_cycle(&creds);
    assert_eq!(
        request.url,
        "https://api.cloudflare.com/client/v4/zones?name=example.com&status=active"
    );

    let zone_body = "{\"result\":[{\"id\":\"Z1\"}]}".as_bytes();
    let (phase, request) = continue_step(handle_response(&creds, phase, zone_body));
    assert_eq!(request.method, Method::Get);
    assert_eq!(
        request.url,
        "https://api.cloudflare.com/client/v4/zones/Z1/dns_records?type=A&name=example.com"
    );
    assert_eq!(request.headers, expected_headers());

    let record_body = "{\"result\":[{\"id\":\"R1\",\"content\":\"1.2.3.4\"}]}".as_bytes();
    let (phase, request) = continue_step(handle_response(&creds, phase, record_body));
    assert_eq!(request.method, Method::Get);
    assert_eq!(request.url, "https://checkip.amazonaws.com");
    assert!(request.headers.is_empty());

    let ip_body = "5.6.7.8\n".as_bytes();
    let (phase, request) = continue_step(handle_response(&creds, phase, ip_body));
    assert_eq!(request.method, Method::Put);
    assert_eq!(
        request.url,
        "https://api.cloudflare.com/client/v4/zones/Z1/dns_records/R1"
    );
    assert_eq!(request.headers, expected_headers());
    assert_eq!(
        request.body.as_deref(),
        Some("{\"type\":\"A\",\"name\":\"example.com\",\"content\":\"5.6.7.8\",\"ttl\":1,\"proxied\":false}")
    );

    let update_body = "{\"success\":true}".as_bytes();
    match handle_response(&creds, phase, update_body) {
        Ok(Step::Done(outcome)) => {
            assert_eq!(outcome, Outcome::Updated { ip: String::from("5.6.7.8") })
        },
        other => panic!("expected a finished cycle, got {:?}", other),
    }
}

#[test]
fn idempotent_when_content_matches() {
    let creds = creds();
    let (phase, _) = start_cycle(&creds);
    let (phase, _) = continue_step(handle_response(
        &creds,
        phase,
        "{\"result\":[{\"id\":\"Z1\"}]}".as_bytes(),
    ));
    let (phase, _) = continue_step(handle_response(
        &creds,
        phase,
        "{\"result\":[{\"id\":\"R1\",\"content\":\"9.9.9.9\"}]}".as_bytes(),
    ));
    match handle_response(&creds, phase, "9.9.9.9\n".as_bytes()) {
        Ok(Step::Done(outcome)) => {
            assert_eq!(outcome, Outcome::NoUpdateNeeded { ip: String::from("9.9.9.9") })
        },
        other => panic!("expected no update needed, got {:?}", other),
    }
}

#[test]
fn trimming_makes_stored_and_echoed_equal() {
    let creds = creds();
    let phase = Phase::IpFetch {
        zone_id: String::from("Z1"),
        record: dns_sync::responses::DnsRecord {
            id: String::from("R1"),
            content: String::from("203.0.113.7"),
        },
    };
    match handle_response(&creds, phase, "203.0.113.7\n".as_bytes()) {
        Ok(Step::Done(outcome)) => {
            assert_eq!(outcome, Outcome::NoUpdateNeeded { ip: String::from("203.0.113.7") })
        },
        other => panic!("expected no update needed, got {:?}", other),
    }
}

#[test]
fn missing_zone_aborts_cycle() {
    let creds = creds();
    let (phase, _) = start_cycle(&creds);
    match handle_response(&creds, phase, "{\"result\":[]}".as_bytes()) {
        Err(SyncError::ZoneNotFound { domain }) => assert_eq!(domain, "example.com"),
        other => panic!("expected ZoneNotFound, got {:?}", other),
    }
}

#[test]
fn missing_record_aborts_cycle() {
    let creds = creds();
    let phase = Phase::RecordLookup { zone_id: String::from("Z1") };
    match handle_response(&creds, phase, "{\"result\":[]}".as_bytes()) {
        Err(SyncError::RecordNotFound { domain }) => assert_eq!(domain, "example.com"),
        other => panic!("expected RecordNotFound, got {:?}", other),
    }
}

#[test]
fn rejected_update_keeps_raw_body() {
    let creds = creds();
    let phase = Phase::Update { new_ip: String::from("5.6.7.8") };
    let body = "{\"success\":false,\"errors\":[{\"code\":1003}]}";
    match handle_response(&creds, phase, body.as_bytes()) {
        Err(SyncError::UpdateRejected { raw }) => {
            assert_eq!(raw, body.as_bytes().to_vec());
            let message = SyncError::UpdateRejected { raw }.message();
            assert!(message.contains(body));
            assert!(message.starts_with("Cloudflare API reported failure: "));
        },
        other => panic!("expected UpdateRejected, got {:?}", other),
    }
}

#[test]
fn update_without_success_field_is_rejected() {
    let creds = creds();
    let phase = Phase::Update { new_ip: String::from("5.6.7.8") };
    match handle_response(&creds, phase, "[1,2]".as_bytes()) {
        Err(SyncError::UpdateRejected { raw }) => assert_eq!(raw, "[1,2]".as_bytes().to_vec()),
        other => panic!("expected UpdateRejected, got {:?}", other),
    }
}

#[test]
fn unparsable_update_response_is_a_parse_error() {
    let creds = creds();
    let phase = Phase::Update { new_ip: String::from("5.6.7.8") };
    match handle_response(&creds, phase, "not json".as_bytes()) {
        Err(SyncError::ParseError(SyncStep::Update)) => {},
        other => panic!("expected a parse error, got {:?}", other),
    }
}

#[test]
fn ip_body_must_be_utf8() {
    let creds = creds();
    let phase = Phase::IpFetch {
        zone_id: String::from("Z1"),
        record: dns_sync::responses::DnsRecord {
            id: String::from("R1"),
            content: String::from("1.2.3.4"),
        },
    };
    match handle_response(&creds, phase, &[0xff, 0xfe]) {
        Err(SyncError::ParseError(SyncStep::IpFetch)) => {},
        other => panic!("expected a parse error, got {:?}", other),
    }
}

#[test]
fn transport_failures_are_charged_to_the_awaited_step() {
    assert_eq!(Phase::ZoneLookup.awaited_step(), SyncStep::ZoneLookup);
    assert_eq!(
        Phase::RecordLookup { zone_id: String::from("Z1") }.awaited_step(),
        SyncStep::RecordLookup
    );
    assert_eq!(
        Phase::Update { new_ip: String::from("5.6.7.8") }.awaited_step(),
        SyncStep::Update
    );
}
