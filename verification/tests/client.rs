use warp_cors::client::{
    outgoing_request, relayed_response, request_to, to_reqwest_method,
};
use warp_cors::error::Error;
use warp_cors::headers::MAX_FIELDS;
use warp_cors::target::Target;

#[test]
fn method_stays_the_same() {
    for name in ["GET", "POST", "OPTIONS", "PATCH", "get", "MKCOL", "X-A.B_C~1", "!*+-.^_`|~"] {
        let method = warp::http::Method::from_bytes(name.as_bytes()).unwrap();
        assert_eq!(to_reqwest_method(&method).as_str(), name);
        assert_eq!(to_reqwest_method(&method).to_string(), method.to_string());
    }
    let long = "M".repeat(40);
    let method = warp::http::Method::from_bytes(long.as_bytes()).unwrap();
    assert_eq!(to_reqwest_method(&method).as_str(), long);
    assert_eq!(to_reqwest_method(&warp::http::Method::DELETE), reqwest::Method::DELETE);
}

#[test]
fn request_goes_to_the_target_that_the_uri_names() {
    let mut headers = warp::http::HeaderMap::new();
    headers.append("accept", warp::http::HeaderValue::from_static("text/html"));
    let request =
        outgoing_request(&warp::http::Method::PUT, "http://EXAMPLE.org:8080/a b", &headers)
            .unwrap()
            .unwrap();
    assert_eq!(request.method, reqwest::Method::PUT);
    assert_eq!(request.target.text, "http://example.org:8080/a%20b");
    assert_eq!(request.headers.len(), 1);
    assert_eq!(request.headers["accept"], "text/html");
}

#[test]
fn request_to_nowhere_is_not_made() {
    let headers = warp::http::HeaderMap::new();
    assert!(matches!(
        outgoing_request(&warp::http::Method::GET, "/index.html", &headers),
        Err(Error::UrlParse(url::ParseError::RelativeUrlWithoutBase))
    ));
}

#[test]
fn request_to_a_parsed_target_keeps_it() {
    let headers = warp::http::HeaderMap::new();
    let target = Target::parse("https://example.org/").unwrap();
    let request = request_to(target, &warp::http::Method::HEAD, &headers).unwrap();
    assert_eq!(request.target, Target::parse("https://example.org/").unwrap());
    assert_eq!(request.method, reqwest::Method::HEAD);
    assert!(request.headers.is_empty());
}

#[test]
fn request_with_too_many_headers_is_told_apart() {
    let mut headers = warp::http::HeaderMap::new();
    headers.append("accept", warp::http::HeaderValue::from_static("text/html"));
    for _ in 1..MAX_FIELDS {
        headers.append("accept", warp::http::HeaderValue::from_static("text/plain"));
    }
    let get = warp::http::Method::GET;
    let request = outgoing_request(&get, "http://example.org", &headers).unwrap();
    assert_eq!(request.unwrap().headers.len(), MAX_FIELDS);
    headers.append("accept", warp::http::HeaderValue::from_static("text/plain"));
    assert!(outgoing_request(&get, "http://example.org", &headers).unwrap().is_none());
    let target = Target::parse("http://example.org").unwrap();
    assert!(request_to(target, &get, &headers).is_none());
    assert!(outgoing_request(&get, "example.org", &headers).is_err());
}

#[test]
fn answer_is_relayed_without_cookies() {
    let mut headers = reqwest::header::HeaderMap::new();
    headers.append("content-type", reqwest::header::HeaderValue::from_static("text/html"));
    headers.append("set-cookie", reqwest::header::HeaderValue::from_static("a=1"));
    let answer = relayed_response(404, &headers).unwrap();
    assert_eq!(answer.status, 404);
    assert_eq!(answer.headers.len(), 1);
    assert_eq!(answer.headers["content-type"], "text/html");
}

#[test]
fn status_that_http_has_not_is_a_failure() {
    let headers = reqwest::header::HeaderMap::new();
    for status in [100, 200, 599, 999] {
        assert_eq!(relayed_response(status, &headers).unwrap().status, status);
    }
    for status in [0, 99, 1000, 65535] {
        match relayed_response(status, &headers) {
            Err(Error::Http(err)) => assert_eq!(err.to_string(), "invalid status code"),
            _ => panic!("{status} should be no status"),
        }
    }
}

#[test]
fn cookies_do_not_show_in_the_answer() {
    let mut with = reqwest::header::HeaderMap::new();
    with.append("set-cookie", reqwest::header::HeaderValue::from_static("a=1"));
    with.append("etag", reqwest::header::HeaderValue::from_static("x"));
    let mut without = reqwest::header::HeaderMap::new();
    without.append("etag", reqwest::header::HeaderValue::from_static("x"));
    let with = relayed_response(200, &with).unwrap();
    let without = relayed_response(200, &without).unwrap();
    assert_eq!(with.status, without.status);
    assert_eq!(with.headers, without.headers);
}
