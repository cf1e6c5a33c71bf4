use webapi::api::EMPTY_JSON;
use webapi::request::AUTHORIZATION;
use webapi::retry::{
    Response, Retry, DEFAULT_RETRY_AFTER, FIRST_ERROR_STATUS, RATE_LIMITED, RETRY_AFTER,
};
use webapi::{Error, WebApi};

fn response(status: u16, retry_after: Option<&str>) -> Response<Vec<u8>> {
    Response {
        status,
        retry_after: retry_after.map(|text| text.to_string()),
        content_type: "application/json".to_string(),
        body: b"{\"ok\":true}".to_vec(),
    }
}

#[test]
fn rate_limited_with_retry_after_waits_that_long() {
    assert_eq!(WebApi::with_retry(Ok(response(429, Some("5")))), Retry::Wait(5));
    assert_eq!(WebApi::with_retry(Ok(response(429, Some("0")))), Retry::Wait(0));
    assert_eq!(WebApi::with_retry(Ok(response(429, Some("120")))), Retry::Wait(120));
}

#[test]
fn rate_limited_without_header_waits_the_default() {
    assert_eq!(WebApi::with_retry(Ok(response(429, None))), Retry::Wait(2));
    assert_eq!(DEFAULT_RETRY_AFTER, 2);
    assert_eq!(RATE_LIMITED, 429);
}

#[test]
fn rate_limited_with_unreadable_header_waits_the_default() {
    for text in ["", "soon", "1.5", "-3", " 4", "4 ", "Wed, 21 Oct 2015 07:28:00 GMT"] {
        assert_eq!(WebApi::with_retry(Ok(response(429, Some(text)))), Retry::Wait(2));
    }
    assert_eq!(
        WebApi::with_retry(Ok(response(429, Some("99999999999999999999999")))),
        Retry::Wait(2)
    );
}

#[test]
fn other_statuses_go_through_unchanged() {
    for status in [200u16, 201, 204, 304, 400, 401, 403, 404, 428, 430, 500, 503] {
        assert_eq!(
            WebApi::with_retry(Ok(response(status, Some("5")))),
            Retry::Done(Ok(response(status, Some("5"))))
        );
    }
}

#[test]
fn transport_errors_are_not_retried() {
    let outcome: Retry<Vec<u8>> =
        WebApi::with_retry(Err(Error::WebApiError("connection reset".to_string())));
    assert_eq!(
        outcome,
        Retry::Done(Err(Error::WebApiError("connection reset".to_string())))
    );
}

#[test]
fn retry_loop_ends_with_the_first_response_that_is_not_rate_limited() {
    let mut attempts = vec![
        response(200, None),
        response(429, Some("x")),
        response(429, Some("7")),
        response(429, None),
    ];
    let mut slept = Vec::new();
    let outcome = loop {
        match WebApi::with_retry(Ok(attempts.pop().unwrap())) {
            Retry::Wait(secs) => slept.push(secs),
            Retry::Done(outcome) => break outcome,
        }
    };
    assert_eq!(slept, vec![2, 7, 2]);
    assert_eq!(outcome, Ok(response(200, None)));
    assert!(attempts.is_empty());
}

#[test]
fn header_names_are_the_ones_on_the_wire() {
    assert_eq!(RETRY_AFTER, "Retry-After");
    assert_eq!(AUTHORIZATION, "Authorization");
}

#[test]
fn status_tests_tell_rate_limiting_and_failures_apart() {
    assert!(response(429, None).is_rate_limited());
    assert!(!response(428, None).is_rate_limited());
    assert!(!response(200, None).is_rate_limited());
    assert_eq!(FIRST_ERROR_STATUS, 400);
    assert!(!response(200, None).is_error());
    assert!(!response(399, None).is_error());
    assert!(response(400, None).is_error());
    assert!(response(429, None).is_error());
    assert!(response(503, None).is_error());
    assert_eq!(
        response(404, None).status_error(),
        Error::WebApiError("status code 404".to_string())
    );
}

#[test]
fn send_empty_json_discards_the_response() {
    assert_eq!(EMPTY_JSON, "{}");
    assert_eq!(WebApi::send_empty_json(Ok(response(200, None))), Ok(()));
    assert_eq!(WebApi::send_empty_json(Ok(response(204, None))), Ok(()));
    assert_eq!(WebApi::send_empty_json(Ok(response(399, None))), Ok(()));
}

#[test]
fn send_empty_json_surfaces_status_and_transport_failures() {
    assert_eq!(
        WebApi::send_empty_json(Ok(response(400, None))),
        Err(Error::WebApiError("status code 400".to_string()))
    );
    assert_eq!(
        WebApi::send_empty_json(Ok(response(403, None))),
        Err(Error::WebApiError("status code 403".to_string()))
    );
    assert_eq!(
        WebApi::send_empty_json(Ok(response(500, None))),
        Err(Error::WebApiError("status code 500".to_string()))
    );
    assert_eq!(
        WebApi::send_empty_json::<Vec<u8>>(Err(Error::WebApiError("timed out".to_string()))),
        Err(Error::WebApiError("timed out".to_string()))
    );
}

fn length(bytes: &Vec<u8>) -> Result<usize, String> {
    if bytes.is_empty() {
        Err("EOF while parsing a value".to_string())
    } else {
        Ok(bytes.len())
    }
}

#[test]
fn load_passes_the_value_or_the_decode_failure() {
    assert_eq!(WebApi::load(Ok(b"[1]".to_vec()), length), Ok(3));
    assert_eq!(
        WebApi::load(Ok(Vec::new()), length),
        Err(Error::WebApiError("EOF while parsing a value".to_string()))
    );
}

#[test]
fn load_passes_a_failed_fetch_on_without_decoding() {
    assert_eq!(
        WebApi::load(Err(Error::WebApiError("timed out".to_string())), length),
        Err(Error::WebApiError("timed out".to_string()))
    );
}
