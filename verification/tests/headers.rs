use warp_cors::error::Error;
use warp_cors::headers::{
    headers_fit, relayed_fields, relayed_headers, to_reqwest_headers, try_to_reqwest_headers, MAX_FIELDS, MAX_NAMES,
};

fn server(fields: &[(&str, &[u8])]) -> warp::http::HeaderMap {
    let mut map = warp::http::HeaderMap::new();
    for (name, value) in fields {
        map.append(
            warp::http::header::HeaderName::from_bytes(name.as_bytes()).unwrap(),
            warp::http::HeaderValue::from_bytes(value).unwrap(),
        );
    }
    map
}

fn client(fields: &[(&str, &[u8])]) -> reqwest::header::HeaderMap {
    let mut map = reqwest::header::HeaderMap::new();
    for (name, value) in fields {
        map.append(
            reqwest::header::HeaderName::from_bytes(name.as_bytes()).unwrap(),
            reqwest::header::HeaderValue::from_bytes(value).unwrap(),
        );
    }
    map
}

fn of_client(map: &reqwest::header::HeaderMap) -> Vec<(String, Vec<u8>)> {
    map.iter()
        .map(|(name, value)| (name.as_str().to_owned(), value.as_bytes().to_vec()))
        .collect()
}

fn of_server(map: &warp::http::HeaderMap) -> Vec<(String, Vec<u8>)> {
    map.iter()
        .map(|(name, value)| (name.as_str().to_owned(), value.as_bytes().to_vec()))
        .collect()
}

fn owned(fields: &[(&str, &[u8])]) -> Vec<(String, Vec<u8>)> {
    fields
        .iter()
        .map(|(name, value)| (name.to_string(), value.to_vec()))
        .collect()
}

#[test]
fn no_headers_stay_no_headers() {
    assert_eq!(of_client(&to_reqwest_headers(&server(&[]))), vec![]);
    assert_eq!(of_server(&relayed_headers(&client(&[])).unwrap()), vec![]);
}

#[test]
fn fields_are_sent_as_they_came() {
    let headers = server(&[
        ("Accept", b"text/html"),
        ("x-Twice", b"one"),
        ("host", b"example.org"),
        ("X-TWICE", b"two"),
        ("x-bytes", b"\tcaf\xe9"),
        ("x-empty", b""),
    ]);
    assert_eq!(
        of_client(&to_reqwest_headers(&headers)),
        owned(&[
            ("accept", b"text/html"),
            ("x-twice", b"one"),
            ("x-twice", b"two"),
            ("host", b"example.org"),
            ("x-bytes", b"\tcaf\xe9"),
            ("x-empty", b""),
        ])
    );
}

// The server takes the quotation mark in a name, and the client does not.
#[test]
fn field_that_the_client_cannot_write_is_left_out() {
    let headers = server(&[
        ("accept", b"text/html"),
        ("x-\"quoted\"", b"lost"),
        ("x-kept", b"kept"),
    ]);
    assert_eq!(headers.len(), 3);
    assert_eq!(
        of_client(&to_reqwest_headers(&headers)),
        owned(&[("accept", b"text/html"), ("x-kept", b"kept")])
    );
}

#[test]
fn cookies_of_a_target_do_not_reach_the_page() {
    let headers = client(&[
        ("content-type", b"text/html"),
        ("Set-Cookie", b"a=1"),
        ("vary", b"origin"),
        ("set-cookie", b"b=2"),
        ("vary", b"accept"),
        ("set-cookie2", b"c=3"),
    ]);
    assert_eq!(
        of_server(&relayed_headers(&headers).unwrap()),
        owned(&[
            ("content-type", b"text/html"),
            ("vary", b"origin"),
            ("vary", b"accept"),
            ("set-cookie2", b"c=3"),
        ])
    );
}

#[test]
fn answer_of_cookies_alone_has_no_headers() {
    let headers = client(&[("set-cookie", b"a=1"), ("set-cookie", b"b=2")]);
    assert_eq!(of_server(&relayed_headers(&headers).unwrap()), vec![]);
}

#[test]
fn as_many_names_as_fit_are_sent() {
    let fields: Vec<String> = (0..MAX_NAMES).map(|i| format!("x-{i}")).collect();
    let mut headers = warp::http::HeaderMap::new();
    for name in &fields {
        headers.append(
            warp::http::header::HeaderName::from_bytes(name.as_bytes()).unwrap(),
            warp::http::HeaderValue::from_static("v"),
        );
    }
    assert!(headers_fit(&headers));
    let out = to_reqwest_headers(&headers);
    assert_eq!(out.keys_len(), MAX_NAMES);
    headers.append("one-more", warp::http::HeaderValue::from_static("v"));
    assert!(!headers_fit(&headers));
    assert_eq!(try_to_reqwest_headers(&headers).unwrap().keys_len(), MAX_NAMES + 1);

    let back = relayed_headers(&out).unwrap();
    assert_eq!(back.keys_len(), MAX_NAMES);
}

#[test]
fn as_many_fields_as_fit_are_sent() {
    let mut headers = warp::http::HeaderMap::new();
    for _ in 0..MAX_FIELDS {
        headers.append("x-same", warp::http::HeaderValue::from_static("v"));
    }
    assert!(headers_fit(&headers));
    assert_eq!(to_reqwest_headers(&headers).len(), MAX_FIELDS);
    headers.append("x-same", warp::http::HeaderValue::from_static("v"));
    assert!(!headers_fit(&headers));
    assert!(try_to_reqwest_headers(&headers).is_none());
}

// `from_bytes` takes no such name on the client side, but a map can hold one.
#[test]
fn quotation_mark_in_the_name_of_an_answers_field_is_relayed() {
    assert!(reqwest::header::HeaderName::from_bytes(b"x\"y").is_err());
    let mut headers = reqwest::header::HeaderMap::new();
    headers.append(
        reqwest::header::HeaderName::from_static("x\"y"),
        reqwest::header::HeaderValue::from_static("1"),
    );
    assert_eq!(
        of_server(&relayed_headers(&headers).unwrap()),
        owned(&[("x\"y", b"1")])
    );
    assert_eq!(relayed_fields(&headers).len(), 1);
}

#[test]
fn cookies_make_no_difference_to_the_fields() {
    let plain = client(&[("vary", b"origin"), ("etag", b"x"), ("vary", b"accept")]);
    let first = client(&[
        ("set-cookie", b"a=1"),
        ("vary", b"origin"),
        ("etag", b"x"),
        ("vary", b"accept"),
    ]);
    let last = client(&[
        ("vary", b"origin"),
        ("vary", b"accept"),
        ("etag", b"x"),
        ("set-cookie", b"b=2"),
        ("set-cookie", b"c=3"),
    ]);
    assert_eq!(relayed_fields(&first), relayed_fields(&plain));
    assert_eq!(relayed_fields(&last), relayed_fields(&plain));
    assert_eq!(relayed_headers(&first).unwrap(), relayed_headers(&last).unwrap());
}

// Names that are not sent take no room.
#[test]
fn names_that_are_left_out_do_not_count() {
    let mut headers = warp::http::HeaderMap::new();
    for i in 0..MAX_NAMES {
        headers.append(
            warp::http::header::HeaderName::from_bytes(format!("x\"{i}").as_bytes()).unwrap(),
            warp::http::HeaderValue::from_static("v"),
        );
    }
    headers.append("accept", warp::http::HeaderValue::from_static("text/html"));
    assert!(headers_fit(&headers));
    assert_eq!(
        of_client(&to_reqwest_headers(&headers)),
        owned(&[("accept", b"text/html")])
    );
}

const LONG_NAME: &str =
    "x-aaaaaaaaaaaaaaaaaaaaaaaaaaaaaaaaaaaaaaaaaaaaaaaaaaaaaaaaaaaaaaaaaaaaaaaa bbbb";

// A long static name goes into a map unseen, and a byte that no name may hold
// comes out as zero.
#[test]
fn field_that_no_side_can_write_is_left_out_of_a_request() {
    let mut headers = warp::http::HeaderMap::new();
    headers.append(LONG_NAME, warp::http::HeaderValue::from_static("lost"));
    headers.append("x-kept", warp::http::HeaderValue::from_static("kept"));
    assert!(of_server(&headers)[0].0.contains('\0'));
    assert!(headers_fit(&headers));
    assert_eq!(
        of_client(&to_reqwest_headers(&headers)),
        owned(&[("x-kept", b"kept")])
    );
}

#[test]
fn answer_with_a_field_that_no_side_can_write_is_a_failure() {
    let mut headers = reqwest::header::HeaderMap::new();
    headers.append(LONG_NAME, reqwest::header::HeaderValue::from_static("1"));
    let name = headers.keys().next().unwrap().clone();
    assert!(name.as_str().contains('\0'));
    assert_eq!(relayed_fields(&headers).len(), 1);
    assert!(matches!(relayed_headers(&headers), Err(Error::Http(_))));

    let mut headers = reqwest::header::HeaderMap::new();
    headers.append("x-name", reqwest::header::HeaderValue::from(name));
    assert!(matches!(relayed_headers(&headers), Err(Error::Http(_))));
}
