use webapi::request::{AuthenticatedRequest, API_BASE, BEARER};
use webapi::{Error, WebApi};

fn pair(key: &str, value: &str) -> (String, String) {
    (key.to_string(), value.to_string())
}

#[test]
fn build_sets_url_under_the_api_base() {
    let request = AuthenticatedRequest::build("GET", "v1/me", "secret");
    assert_eq!(request.method(), "GET");
    assert_eq!(request.url(), "https://api.spotify.com/v1/me");
    assert_eq!(request.token(), "secret");
    assert!(request.params().is_empty());
    assert_eq!(API_BASE, "https://api.spotify.com/");
}

#[test]
fn build_always_carries_a_bearer_header() {
    let request = AuthenticatedRequest::build("PUT", "v1/me/albums", "abc123");
    assert_eq!(request.authorization(), "Bearer abc123");
    assert_eq!(BEARER, "Bearer ");
    let empty = AuthenticatedRequest::build("GET", "", "");
    assert_eq!(empty.authorization(), "Bearer ");
    assert_eq!(empty.url(), "https://api.spotify.com/");
}

#[test]
fn query_appends_in_order_without_validation() {
    let request = AuthenticatedRequest::build("GET", "v1/search", "t")
        .query("q", "a b&c")
        .query("type", "")
        .query("q", "again");
    assert_eq!(
        request.params(),
        &vec![pair("q", "a b&c"), pair("type", ""), pair("q", "again")]
    );
    assert_eq!(request.url(), "https://api.spotify.com/v1/search");
}

#[test]
fn clone_keeps_every_part() {
    let request = AuthenticatedRequest::build("DELETE", "v1/me/tracks", "tok").query("ids", "7");
    let copy = request.clone();
    assert_eq!(copy, request);
    let longer = copy.query("x", "y");
    assert_eq!(request.params().len(), 1);
    assert_eq!(longer.params().len(), 2);
}

#[test]
fn access_token_passes_the_token_on() {
    let api = WebApi::new(Ok("tok".to_string()));
    assert_eq!(api.access_token(), Ok("tok".to_string()));
}

#[test]
fn access_token_fails_with_the_credential_text() {
    let api = WebApi::new(Err("session expired".to_string()));
    assert_eq!(
        api.access_token(),
        Err(Error::WebApiError("session expired".to_string()))
    );
}

#[test]
fn request_uses_the_method_and_the_token() {
    let api = WebApi::new(Ok("tok".to_string()));
    assert_eq!(
        api.request("PATCH", "v1/x"),
        Ok(AuthenticatedRequest::build("PATCH", "v1/x", "tok"))
    );
    assert_eq!(api.get("v1/x"), Ok(AuthenticatedRequest::build("GET", "v1/x", "tok")));
    assert_eq!(api.put("v1/x"), Ok(AuthenticatedRequest::build("PUT", "v1/x", "tok")));
    assert_eq!(
        api.delete("v1/x"),
        Ok(AuthenticatedRequest::build("DELETE", "v1/x", "tok"))
    );
}

#[test]
fn request_fails_without_a_token() {
    let api = WebApi::new(Err("no network".to_string()));
    let failure = Err(Error::WebApiError("no network".to_string()));
    assert_eq!(api.request("GET", "v1/me"), failure);
    assert_eq!(api.get("v1/me"), failure);
    assert_eq!(api.put("v1/me"), failure);
    assert_eq!(api.delete("v1/me"), failure);
}

#[test]
fn error_text_is_what_it_was_made_with() {
    let err = Error::new("boom");
    assert_eq!(err, Error::WebApiError("boom".to_string()));
    assert_eq!(err.to_string(), "boom");
}
