use lead_oxide::errors::{ApiError, DAILY_LIMIT, INVALID_API_KEY, NO_PROXY, RATE_LIMIT};
use lead_oxide::fetcher::page_from_response;
use lead_oxide::types::NaiveResponse;

fn answer(status: u16, text: &str) -> NaiveResponse {
    NaiveResponse::new(status, text.to_string())
}

#[test]
fn known_messages_name_their_errors() {
    assert_eq!(ApiError::from(INVALID_API_KEY.to_string()), ApiError::ApiKey);
    assert_eq!(ApiError::from(RATE_LIMIT.to_string()), ApiError::RateLimit);
    assert_eq!(ApiError::from(DAILY_LIMIT.to_string()), ApiError::DailyLimit);
    assert_eq!(ApiError::from(NO_PROXY.to_string()), ApiError::NoProxy);
    assert_eq!(ApiError::from("No proxy ".to_string()), ApiError::Unknown);
    assert_eq!(ApiError::from(String::new()), ApiError::Unknown);
}

#[test]
fn known_messages_win_over_status() {
    assert_eq!(ApiError::from_response(answer(429, RATE_LIMIT)), ApiError::RateLimit);
    assert_eq!(ApiError::from_response(answer(503, NO_PROXY)), ApiError::NoProxy);
    assert_eq!(ApiError::from_response(answer(200, DAILY_LIMIT)), ApiError::DailyLimit);
}

#[test]
fn other_client_and_server_bodies_keep_status_and_text() {
    assert_eq!(
        ApiError::from_response(answer(404, "not here")),
        ApiError::Client { status: 404, text: "not here".to_string() }
    );
    assert_eq!(
        ApiError::from_response(answer(400, "")),
        ApiError::Client { status: 400, text: String::new() }
    );
    assert_eq!(
        ApiError::from_response(answer(499, "x")),
        ApiError::Client { status: 499, text: "x".to_string() }
    );
    assert_eq!(
        ApiError::from_response(answer(500, "oops")),
        ApiError::Server { status: 500, text: "oops".to_string() }
    );
    assert_eq!(
        ApiError::from_response(answer(599, "late")),
        ApiError::Server { status: 599, text: "late".to_string() }
    );
}

#[test]
fn successful_answers() {
    assert!(answer(200, "").ok());
    assert!(answer(299, "").ok());
    assert!(!answer(300, "").ok());
    assert!(!answer(199, "").ok());

    let page = page_from_response(answer(200, "{}"), Some(Vec::new())).unwrap();
    assert!(page.is_empty());
    assert_eq!(
        page_from_response(answer(200, "not json"), None).unwrap_err(),
        ApiError::Unknown
    );
    assert_eq!(
        page_from_response(answer(200, NO_PROXY), None).unwrap_err(),
        ApiError::NoProxy
    );
    assert_eq!(
        page_from_response(answer(200, INVALID_API_KEY), None).unwrap_err(),
        ApiError::ApiKey
    );
}

#[test]
fn unsuccessful_answers_are_errors() {
    assert_eq!(
        page_from_response(answer(404, "gone"), Some(Vec::new())).unwrap_err(),
        ApiError::Client { status: 404, text: "gone".to_string() }
    );
    assert_eq!(
        page_from_response(answer(502, "bad gateway"), None).unwrap_err(),
        ApiError::Server { status: 502, text: "bad gateway".to_string() }
    );
    assert_eq!(
        page_from_response(answer(302, RATE_LIMIT), None).unwrap_err(),
        ApiError::RateLimit
    );
}
