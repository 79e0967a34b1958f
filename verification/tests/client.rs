use bittower::client::{decimal_string, sid_cookie, QbtClient};

#[test]
fn new_keeps_base_url() {
    let client = QbtClient::new("http://localhost:9090/api/v2");
    assert_eq!(client.base_url(), "http://localhost:9090/api/v2");
}

#[test]
fn sync_url_names_the_revision() {
    let client = QbtClient::new("http://localhost:9090/api/v2");
    assert_eq!(
        client.sync_maindata_url(0),
        "http://localhost:9090/api/v2/sync/maindata?rid=0"
    );
    assert_eq!(
        client.sync_maindata_url(1207),
        "http://localhost:9090/api/v2/sync/maindata?rid=1207"
    );
}

#[test]
fn decimal_of_extremes() {
    assert_eq!(decimal_string(0), "0");
    assert_eq!(decimal_string(9), "9");
    assert_eq!(decimal_string(10), "10");
    assert_eq!(decimal_string(u64::MAX), "18446744073709551615");
}

#[test]
fn sid_cookie_header() {
    assert_eq!(sid_cookie("abc123"), "SID=abc123");
}

#[test]
fn status_codes_are_classified() {
    use_status();
}

fn use_status() {
    assert!(bittower::client::status_error(200).is_none());
    assert!(bittower::client::status_error(204).is_none());
    assert!(bittower::client::status_error(299).is_none());
    assert!(matches!(bittower::client::status_error(401), Some(bittower::client::QbtError::Unauthenticated)));
    assert!(matches!(bittower::client::status_error(403), Some(bittower::client::QbtError::Unauthenticated)));
    assert_eq!(bittower::client::status_error(500).unwrap().to_string(), "unexpected status");
    assert!(bittower::client::status_error(500).unwrap().is_retryable());
    assert!(bittower::client::status_error(199).unwrap().is_retryable());
    assert!(bittower::client::status_error(300).unwrap().is_retryable());
}
