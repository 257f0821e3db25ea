use std::io;

use warp_cors::error::{
    from_client_error, recover, refusal_in_chain, Error, ErrorMessage, Link, FORBIDDEN,
    INTERNAL_SERVER_ERROR,
};
use warp_cors::ssrf::DeviceAddress;
use warp_cors::target::Target;

fn client_error() -> reqwest::Error {
    reqwest::Client::new()
        .get("no url")
        .build()
        .expect_err("a request needs a URL")
}

fn server_error() -> warp::hyper::Error {
    let runtime = tokio::runtime::Builder::new_current_thread()
        .build()
        .expect("a runtime should start");
    let (sender, body) = warp::hyper::Body::channel();
    sender.abort();
    runtime
        .block_on(warp::hyper::body::to_bytes(body))
        .expect_err("an aborted body cannot be read")
}

/// The chain of an error with two others wrapped around it.
fn wrap(link: Link) -> Vec<Link> {
    vec![Link::Other, Link::Other, link]
}

#[test]
fn refusal_in_chain_when_a_blocked_target_is_buried_should_find_it() {
    let err = wrap(Link::BlockedTarget(String::from(
        "Target is an address of this device: http://127.0.0.1:4040/",
    )));

    let refusal = refusal_in_chain(&err).expect("the refusal should survive the wrapping");

    assert_eq!(refusal.status_code(), 403);
    assert_eq!(
        refusal.message(),
        "Target is an address of this device: http://127.0.0.1:4040/"
    );
}

#[test]
fn refusal_in_chain_when_the_resolver_refused_should_be_a_blocked_target() {
    let err = wrap(Link::DeviceAddress(DeviceAddress));

    let refusal = refusal_in_chain(&err).expect("the refusal should survive the wrapping");

    assert_eq!(refusal.status_code(), 403);
    assert_eq!(refusal.message(), "Target is an address of this device");
}

// A connection that was turned down with `nope` is an error like any other.
#[test]
fn refusal_in_chain_when_nothing_refused_should_be_none() {
    let err = wrap(Link::Other);

    assert!(refusal_in_chain(&err).is_none());
}

#[test]
fn refusal_in_chain_when_the_chain_is_empty_should_be_none() {
    assert!(refusal_in_chain(&vec![]).is_none());
}

#[test]
fn refusal_in_chain_when_there_are_several_should_find_the_outermost() {
    let err = vec![
        Link::Other,
        Link::BlockedTarget(String::from("outer")),
        Link::DeviceAddress(DeviceAddress),
        Link::BlockedTarget(String::from("inner")),
    ];
    assert_eq!(refusal_in_chain(&err).map(|err| err.message()), Some(String::from("outer")));
    assert_eq!(
        refusal_in_chain(&err[2..].iter().map(|link| match link {
            Link::BlockedTarget(reason) => Link::BlockedTarget(reason.clone()),
            Link::DeviceAddress(refusal) => Link::DeviceAddress(*refusal),
            Link::Other => Link::Other,
        }).collect())
        .map(|err| err.message()),
        Some(String::from("Target is an address of this device"))
    );
}

#[test]
fn client_failure_with_a_refusal_inside_is_a_refusal() {
    let failure = from_client_error(&wrap(Link::DeviceAddress(DeviceAddress)), client_error());
    assert_eq!(
        recover(Some(&failure)),
        Some(ErrorMessage {
            code: 403,
            message: String::from("Target is an address of this device"),
        })
    );
}

#[test]
fn client_failure_without_a_refusal_stays_what_it_is() {
    let err = client_error();
    let shown = err.to_string();
    let failure = from_client_error(&wrap(Link::Other), err);
    assert!(matches!(failure, Error::Reqwest(_)));
    assert_eq!(
        recover(Some(&failure)),
        Some(ErrorMessage { code: 500, message: shown })
    );
}

#[test]
fn every_failure_but_a_refusal_is_ours() {
    let http = warp::http::Error::from(warp::http::StatusCode::from_u16(99).unwrap_err());
    let value = warp::hyper::header::HeaderValue::from_bytes(b"\n").unwrap_err();
    let failures = vec![
        (Error::from(http), "invalid status code".to_owned()),
        (Error::from(server_error()), server_error().to_string()),
        (Error::from(value), "failed to parse header value".to_owned()),
        (
            Error::from(io::Error::new(io::ErrorKind::ConnectionRefused, "nope")),
            "nope".to_owned(),
        ),
        (Error::from(client_error()), client_error().to_string()),
        (
            Error::from(url::ParseError::EmptyHost),
            "empty host".to_owned(),
        ),
    ];
    for (failure, shown) in failures {
        assert_eq!(failure.status_code(), INTERNAL_SERVER_ERROR);
        assert_eq!(failure.message(), shown);
        assert!(!failure.message().is_empty());
    }
}

#[test]
fn conversions_keep_the_failure() {
    assert!(matches!(Error::from(server_error()), Error::Hyper(_)));
    assert!(matches!(Error::from(client_error()), Error::Reqwest(_)));
    assert!(matches!(
        Error::from(io::Error::new(io::ErrorKind::NotFound, "gone")),
        Error::Io(_)
    ));
    assert!(matches!(
        Error::from(url::ParseError::EmptyHost),
        Error::UrlParse(url::ParseError::EmptyHost)
    ));
}

#[test]
fn refusal_is_answered_with_403_and_the_reason() {
    let refusal = Error::BlockedTarget(String::from("because"));
    assert_eq!(refusal.status_code(), FORBIDDEN);
    assert_eq!(
        recover(Some(&refusal)),
        Some(ErrorMessage { code: 403, message: String::from("because") })
    );
}

#[test]
fn what_is_not_ours_is_not_answered() {
    assert_eq!(recover(None), None);
}

#[test]
fn text_that_is_no_url_is_a_parse_failure() {
    for (text, expected) in [
        ("example.org", url::ParseError::RelativeUrlWithoutBase),
        ("http://", url::ParseError::EmptyHost),
        ("https://?x", url::ParseError::EmptyHost),
        ("http://[::1/", url::ParseError::InvalidIpv6Address),
        ("http://example.org:99999/", url::ParseError::InvalidPort),
    ] {
        match Target::parse(text) {
            Err(Error::UrlParse(err)) => assert_eq!(err, expected),
            other => panic!("{text} should not parse: {other:?}"),
        }
    }
}
