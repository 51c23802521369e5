use mmds_agent::credentials::{
    parse_document, Expiration, MmdsProvider, Reply, ResolutionError, ResolvedCredentials, Stage,
    Step, METADATA_ENDPOINT,
};

const ROLE_URL: &str = "http://169.254.169.254/latest/meta-data/iam/security-credentials/";

fn ok(body: &str) -> Reply {
    Reply::Received { status: 200, body: body.as_bytes().to_vec() }
}

fn document(expiration: &str) -> String {
    format!(
        "{{\"AccessKeyId\":\"AKIDEXAMPLE\",\"SecretAccessKey\":\"secret/key\",\"Token\":\"tok123\",\"Expiration\":\"{}\"}}",
        expiration
    )
}

fn fetched(step: Step) -> (Stage, String) {
    match step {
        Step::Fetch(stage, url) => (stage, url),
        Step::Done(r) => panic!("resolution ended early: {:?}", r),
    }
}

fn finished(step: Step) -> Result<ResolvedCredentials, ResolutionError> {
    match step {
        Step::Done(r) => r,
        Step::Fetch(_, url) => panic!("unexpected request to {}", url),
    }
}

#[test]
fn new_points_at_metadata_service() {
    let p = MmdsProvider::new();
    assert_eq!(p.endpoint, METADATA_ENDPOINT);
    assert_eq!(p.endpoint, "http://169.254.169.254");
}

#[test]
fn start_asks_for_role() {
    let p = MmdsProvider::new();
    let (stage, url) = fetched(p.start());
    assert_eq!(stage, Stage::DiscoverRole);
    assert_eq!(url, ROLE_URL);
}

#[test]
fn full_exchange_yields_document_fields() {
    let p = MmdsProvider::new();
    let (stage, _) = fetched(p.start());
    let (stage, url) = fetched(p.step(stage, ok("agent-role")));
    assert_eq!(stage, Stage::FetchCredentials);
    assert_eq!(url, format!("{}agent-role", ROLE_URL));
    let c = finished(p.step(stage, ok(&document("2024-01-01T00:00:00Z")))).unwrap();
    assert_eq!(c.access_key_id, "AKIDEXAMPLE");
    assert_eq!(c.secret_access_key, "secret/key");
    assert_eq!(c.session_token, "tok123");
    assert_eq!(c.expiration, Expiration { secs: 1704067200, nanos: 0 });
    assert_eq!(c.provider_name, "MmdsProvider");
}

#[test]
fn expiration_with_offset_and_fraction() {
    let c = parse_document(document("2024-01-01T02:00:00.5+02:00").as_bytes()).unwrap();
    assert_eq!(c.expiration, Expiration { secs: 1704067200, nanos: 500_000_000 });
}

#[test]
fn unreachable_role_request_ends_with_network_error() {
    let p = MmdsProvider::new();
    let r = finished(p.step(Stage::DiscoverRole, Reply::Unreachable));
    assert_eq!(r.unwrap_err(), ResolutionError::Network);
}

#[test]
fn failed_role_status_ends_with_network_error() {
    let p = MmdsProvider::new();
    for status in [199u16, 300, 404, 500] {
        let reply = Reply::Received { status, body: b"agent-role".to_vec() };
        let r = finished(p.step(Stage::DiscoverRole, reply));
        assert_eq!(r.unwrap_err(), ResolutionError::Network);
    }
}

#[test]
fn role_name_not_text_is_decode_error() {
    let p = MmdsProvider::new();
    let reply = Reply::Received { status: 200, body: vec![0xff, 0xfe, 0x00] };
    let r = finished(p.step(Stage::DiscoverRole, reply));
    assert_eq!(r.unwrap_err(), ResolutionError::Decode);
}

#[test]
fn role_name_kept_verbatim_with_trailing_newline() {
    let p = MmdsProvider::new();
    let (stage, url) = fetched(p.step(Stage::DiscoverRole, ok("agent-role\n")));
    assert_eq!(stage, Stage::FetchCredentials);
    assert_eq!(url, format!("{}agent-role\n", ROLE_URL));
}

#[test]
fn failed_credential_request_is_network_error() {
    let p = MmdsProvider::new();
    let r = finished(p.step(Stage::FetchCredentials, Reply::Unreachable));
    assert_eq!(r.unwrap_err(), ResolutionError::Network);
    let reply = Reply::Received { status: 404, body: document("2024-01-01T00:00:00Z").into_bytes() };
    let r = finished(p.step(Stage::FetchCredentials, reply));
    assert_eq!(r.unwrap_err(), ResolutionError::Network);
}

#[test]
fn body_not_json_is_decode_error() {
    assert_eq!(parse_document(b"<html>").unwrap_err(), ResolutionError::Decode);
    assert_eq!(parse_document(b"").unwrap_err(), ResolutionError::Decode);
}

#[test]
fn missing_member_is_schema_error() {
    let full = document("2024-01-01T00:00:00Z");
    for field in ["AccessKeyId", "SecretAccessKey", "Token", "Expiration"] {
        let renamed = full.replace(&format!("\"{}\"", field), "\"Other\"");
        assert_eq!(parse_document(renamed.as_bytes()).unwrap_err(), ResolutionError::Schema);
    }
}

#[test]
fn member_casing_must_match() {
    let body = document("2024-01-01T00:00:00Z").replace("AccessKeyId", "accessKeyId");
    assert_eq!(parse_document(body.as_bytes()).unwrap_err(), ResolutionError::Schema);
}

#[test]
fn non_string_member_is_schema_error() {
    let body = "{\"AccessKeyId\":1,\"SecretAccessKey\":\"s\",\"Token\":\"t\",\"Expiration\":\"2024-01-01T00:00:00Z\"}";
    assert_eq!(parse_document(body.as_bytes()).unwrap_err(), ResolutionError::Schema);
    assert_eq!(parse_document(b"[1,2]").unwrap_err(), ResolutionError::Schema);
}

#[test]
fn invalid_date_time_is_timestamp_error() {
    let r = parse_document(document("2024-13-40T00:00:00Z").as_bytes());
    assert_eq!(r.unwrap_err(), ResolutionError::Timestamp);
    let r = parse_document(document("tomorrow").as_bytes());
    assert_eq!(r.unwrap_err(), ResolutionError::Timestamp);
}

#[test]
fn extra_members_are_ignored() {
    let body = "{\"Code\":\"Success\",\"AccessKeyId\":\"a\",\"SecretAccessKey\":\"s\",\"Token\":\"t\",\"Expiration\":\"1970-01-01T00:00:01Z\"}";
    let c = parse_document(body.as_bytes()).unwrap();
    assert_eq!(c.access_key_id, "a");
    assert_eq!(c.expiration, Expiration { secs: 1, nanos: 0 });
}

#[test]
fn expiration_round_trips_through_rfc3339() {
    for text in ["2024-01-01T00:00:00Z", "2031-07-15T13:45:30.123456789+05:30", "1999-12-31T23:59:59-08:00"] {
        let first = parse_document(document(text).as_bytes()).unwrap().expiration;
        let instant = chrono::DateTime::from_timestamp(first.secs, first.nanos).unwrap();
        let again = parse_document(document(&instant.to_rfc3339()).as_bytes()).unwrap().expiration;
        assert_eq!(first, again);
    }
}

#[test]
fn interleaved_resolutions_stay_apart() {
    let p = MmdsProvider::new();
    let (sa, _) = fetched(p.start());
    let (sb, _) = fetched(p.start());
    let (sa, ua) = fetched(p.step(sa, ok("role-a")));
    let (sb, ub) = fetched(p.step(sb, ok("role-b")));
    assert_eq!(ua, format!("{}role-a", ROLE_URL));
    assert_eq!(ub, format!("{}role-b", ROLE_URL));
    let db = document("2030-01-01T00:00:00Z").replace("AKIDEXAMPLE", "KEY-B");
    let cb = finished(p.step(sb, ok(&db))).unwrap();
    let da = document("2029-01-01T00:00:00Z").replace("AKIDEXAMPLE", "KEY-A");
    let ca = finished(p.step(sa, ok(&da))).unwrap();
    assert_eq!(ca.access_key_id, "KEY-A");
    assert_eq!(cb.access_key_id, "KEY-B");
    assert_eq!(ca.expiration.secs, 1861920000);
    assert_eq!(cb.expiration.secs, 1893456000);
}
