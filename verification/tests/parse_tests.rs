use dns_sync::errors::{SyncError, SyncStep};
use dns_sync::responses::{
    parse_record_response, parse_update_response, parse_zone_response, DnsRecord,
};

#[test]
fn zone_response_first_id_wins() {
    let body = "{\"result\":[{\"id\":\"Z1\",\"name\":\"example.com\"},{\"id\":\"Z2\"}]}";
    assert_eq!(parse_zone_response("example.com", body.as_bytes()).unwrap(), String::from("Z1"));
}

#[test]
fn zone_response_extra_fields_are_ignored() {
    let body = "{\"success\":true,\"result\":[{\"status\":\"active\",\"id\":\"abc\"}]}";
    assert_eq!(parse_zone_response("example.com", body.as_bytes()).unwrap(), String::from("abc"));
}

#[test]
fn zone_response_empty_result_is_zone_not_found() {
    match parse_zone_response("example.com", "{\"result\":[]}".as_bytes()) {
        Err(SyncError::ZoneNotFound { domain }) => assert_eq!(domain, "example.com"),
        other => panic!("expected ZoneNotFound, got {:?}", other),
    }
}

#[test]
fn zone_response_must_be_json() {
    match parse_zone_response("example.com", "oops".as_bytes()) {
        Err(SyncError::ParseError(SyncStep::ZoneLookup)) => {},
        other => panic!("expected a parse error, got {:?}", other),
    }
}

#[test]
fn zone_response_result_must_be_an_array() {
    match parse_zone_response("example.com", "{\"result\":\"Z1\"}".as_bytes()) {
        Err(SyncError::ParseError(SyncStep::ZoneLookup)) => {},
        other => panic!("expected a parse error, got {:?}", other),
    }
}

#[test]
fn zone_response_every_element_needs_a_string_id() {
    let body = "{\"result\":[{\"id\":\"Z1\"},{\"id\":7}]}";
    match parse_zone_response("example.com", body.as_bytes()) {
        Err(SyncError::ParseError(SyncStep::ZoneLookup)) => {},
        other => panic!("expected a parse error, got {:?}", other),
    }
}

#[test]
fn zone_response_without_result_is_malformed() {
    match parse_zone_response("example.com", "{\"ok\":true}".as_bytes()) {
        Err(SyncError::ParseError(SyncStep::ZoneLookup)) => {},
        other => panic!("expected a parse error, got {:?}", other),
    }
}

#[test]
fn record_response_takes_first_record() {
    let body = "{\"result\":[{\"id\":\"R1\",\"content\":\"1.2.3.4\",\"ttl\":300},\
                {\"id\":\"R2\",\"content\":\"5.6.7.8\"}]}";
    assert_eq!(
        parse_record_response("example.com", body.as_bytes()).unwrap(),
        DnsRecord { id: String::from("R1"), content: String::from("1.2.3.4") }
    );
}

#[test]
fn record_response_empty_result_is_record_not_found() {
    match parse_record_response("example.com", "{\"result\":[]}".as_bytes()) {
        Err(SyncError::RecordNotFound { domain }) => assert_eq!(domain, "example.com"),
        other => panic!("expected RecordNotFound, got {:?}", other),
    }
}

#[test]
fn record_response_element_needs_content() {
    let body = "{\"result\":[{\"id\":\"R1\"}]}";
    match parse_record_response("example.com", body.as_bytes()) {
        Err(SyncError::ParseError(SyncStep::RecordLookup)) => {},
        other => panic!("expected a parse error, got {:?}", other),
    }
}

#[test]
fn record_response_nested_structures_are_read() {
    let body = "{\"meta\":{\"page\":[1,[2,3]]},\
                \"result\":[{\"id\":\"R9\",\"content\":\"10.0.0.1\",\"data\":{\"x\":null}}]}";
    assert_eq!(
        parse_record_response("example.com", body.as_bytes()).unwrap(),
        DnsRecord { id: String::from("R9"), content: String::from("10.0.0.1") }
    );
}

#[test]
fn update_response_success_true_is_ok() {
    assert!(parse_update_response("{\"success\":true,\"errors\":[]}".as_bytes()).is_ok());
}

#[test]
fn update_response_success_false_is_rejected() {
    let body = "{\"success\":false}";
    match parse_update_response(body.as_bytes()) {
        Err(SyncError::UpdateRejected { raw }) => assert_eq!(raw, body.as_bytes().to_vec()),
        other => panic!("expected UpdateRejected, got {:?}", other),
    }
}

#[test]
fn update_response_non_boolean_success_is_rejected() {
    let body = "{\"success\":\"true\"}";
    match parse_update_response(body.as_bytes()) {
        Err(SyncError::UpdateRejected { .. }) => {},
        other => panic!("expected UpdateRejected, got {:?}", other),
    }
}
