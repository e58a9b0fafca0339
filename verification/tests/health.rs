use resumeai_desktop::check_api_health;
use resumeai_desktop::failure::failure_message;
use resumeai_desktop::health::status_is_success;

#[test]
fn answer_200_is_healthy() {
    assert_eq!(check_api_health(Ok(200)), Ok(true));
}

#[test]
fn answer_503_is_unhealthy() {
    assert_eq!(check_api_health(Ok(503)), Ok(false));
}

#[test]
fn answer_404_is_unhealthy() {
    assert_eq!(check_api_health(Ok(404)), Ok(false));
}

#[test]
fn answer_500_is_unhealthy() {
    assert_eq!(check_api_health(Ok(500)), Ok(false));
}

#[test]
fn success_range_is_200_to_299() {
    assert_eq!(check_api_health(Ok(199)), Ok(false));
    assert_eq!(check_api_health(Ok(200)), Ok(true));
    assert_eq!(check_api_health(Ok(204)), Ok(true));
    assert_eq!(check_api_health(Ok(299)), Ok(true));
    assert_eq!(check_api_health(Ok(300)), Ok(false));
}

#[test]
fn redirects_and_informational_answers_are_unhealthy() {
    assert_eq!(check_api_health(Ok(100)), Ok(false));
    assert_eq!(check_api_health(Ok(101)), Ok(false));
    assert_eq!(check_api_health(Ok(301)), Ok(false));
    assert_eq!(check_api_health(Ok(302)), Ok(false));
    assert_eq!(check_api_health(Ok(304)), Ok(false));
}

#[test]
fn every_status_gets_a_verdict() {
    for code in 0..=u16::MAX {
        assert_eq!(check_api_health(Ok(code)), Ok((200..=299).contains(&code)));
    }
}

#[test]
fn failed_request_is_an_error_and_no_verdict() {
    let verdict = check_api_health(Err(String::from("connection refused")));
    assert_eq!(verdict, Err(String::from("operation failed: connection refused")));
}

#[test]
fn failed_request_with_no_description() {
    assert_eq!(check_api_health(Err(String::new())), Err(String::from("operation failed: ")));
}

#[test]
fn failure_message_puts_the_description_last() {
    assert_eq!(failure_message("dns error"), "operation failed: dns error");
    assert_eq!(failure_message(""), "operation failed: ");
    assert_eq!(failure_message("operation failed: x"), "operation failed: operation failed: x");
    assert_eq!(failure_message("für {} ü"), "operation failed: für {} ü");
}

#[test]
fn status_is_success_agrees_with_the_http_client() {
    for code in 100..=999u16 {
        let status = reqwest::StatusCode::from_u16(code).unwrap();
        assert_eq!(status_is_success(code), status.is_success(), "status {}", code);
        assert_eq!(check_api_health(Ok(status.as_u16())), Ok(status.is_success()));
    }
}

#[test]
fn malformed_address_is_an_error() {
    let refused = reqwest::Client::new().get("not a url").build().unwrap_err();
    let description = refused.to_string();
    let verdict = check_api_health(Err(description.clone()));
    assert!(verdict.is_err());
    assert_eq!(verdict, Err(format!("operation failed: {}", description)));
}
