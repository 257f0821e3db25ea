use warp_cors::error::{Error, ErrorMessage};
use warp_cors::routes::{
    access, answer, preflight, proxy, routes, Access, Answer, Inbound, Preflight, Route,
};
use warp_cors::ssrf::{blocked_url_reason, Vetting};
use warp_cors::target::Target;

/// A request for `/http://example.org`.
fn request(method: &str, asked_method: Option<&str>, asked_headers: Option<&str>) -> Inbound {
    Inbound {
        url_path: true,
        method: method.to_owned(),
        request_method: asked_method.map(str::to_owned),
        request_headers: asked_headers.map(str::to_owned),
    }
}

/// A request for `/`.
fn plain_request() -> Inbound {
    Inbound {
        url_path: false,
        method: String::from("GET"),
        request_method: None,
        request_headers: None,
    }
}

/// What a page from `origin` is told that gets `path`, which names a target on
/// loopback.
fn refusal_of(path: &str, origin: &str) -> Answer {
    let target = Target::parse(&path[1..]);
    let inbound = Inbound {
        url_path: target.is_ok(),
        method: String::from("GET"),
        request_method: None,
        request_headers: None,
    };
    assert_eq!(routes(&inbound), Some(Route::Proxy));
    match blocked_url_reason(&target.unwrap()) {
        Vetting::Done(Some(reason)) => {
            answer(Some(&Error::BlockedTarget(reason)), Some(origin.to_owned()))
        }
        state => panic!("{path} should be refused: {state:?}"),
    }
}

fn granted(origin: &str) -> Access {
    Access {
        allow_origin: origin.to_owned(),
        allow_credentials: String::from("true"),
    }
}

/// The answer to a request from `origin`, where it is served.
fn served(request: &Inbound, origin: Option<&str>) -> Option<Answer> {
    routes(request).map(|_| answer(None, origin.map(str::to_owned)))
}

#[test]
fn test_routes() {
    assert!(served(&plain_request(), None).is_none());

    let asking = request("OPTIONS", Some("GET"), Some("Origin"));
    assert_eq!(served(&asking, Some("localhost")).unwrap().access.allow_origin, "localhost");

    let asking = request("OPTIONS", Some("GET"), None);
    assert_eq!(served(&asking, None).unwrap().access.allow_origin, "*");

    let getting = request("GET", None, None);
    assert_eq!(served(&getting, Some("localhost")).unwrap().access.allow_origin, "localhost");

    let getting = request("GET", None, None);
    assert_eq!(served(&getting, None).unwrap().access.allow_origin, "*");
}

#[test]
fn proxy_when_target_is_loopback_should_refuse() {
    let answer = refusal_of(
        "/http://127.0.0.1:4040/api/v3/screens/",
        "http://127.0.0.1:34567",
    );

    assert_eq!(answer.failure.unwrap().code, 403);
}

// A refusal the page cannot read is a refusal whose reason only ever reaches
// the journal, so the header matters as much as the status.
#[test]
fn proxy_when_target_is_loopback_the_page_should_be_able_to_read_the_refusal() {
    let answer = refusal_of(
        "/http://127.0.0.1:4040/api/v3/screens/",
        "http://127.0.0.1:34567",
    );

    assert_eq!(
        answer.failure,
        Some(ErrorMessage {
            code: 403,
            message: String::from(
                "Target is an address of this device: http://127.0.0.1:4040/api/v3/screens/"
            ),
        })
    );
    assert_eq!(answer.access.allow_origin, "http://127.0.0.1:34567");
}

#[test]
fn proxy_when_target_is_ipv6_loopback_should_refuse() {
    let answer = refusal_of("/http://[::1]:3030/", "http://127.0.0.1:34567");

    assert_eq!(answer.failure.unwrap().code, 403);
}

#[test]
fn test_preflight() {
    assert!(preflight(&plain_request()).is_none());
    assert!(preflight(&request("OPTIONS", None, None)).is_none());
    assert!(preflight(&request("OPTIONS", Some("GET"), None)).is_none());
    assert!(preflight(&request("GET", Some("GET"), Some("Origin"))).is_none());
    assert!(preflight(&request("OPTIONS", Some("GET"), Some("Origin"))).is_some());
}

#[test]
fn preflight_says_what_leave_is_asked_for() {
    let asked = Preflight { method: String::from("PUT"), headers: String::from("x-a, x-b") };
    assert_eq!(
        routes(&request("OPTIONS", Some("PUT"), Some("x-a, x-b"))),
        Some(Route::Preflight(asked))
    );
}

#[test]
fn request_that_asks_no_leave_is_passed_on() {
    assert_eq!(routes(&request("OPTIONS", None, Some("x-a"))), Some(Route::Proxy));
    assert_eq!(routes(&request("options", Some("PUT"), Some("x-a"))), Some(Route::Proxy));
    assert_eq!(routes(&request("POST", Some("PUT"), Some("x-a"))), Some(Route::Proxy));
    assert!(proxy(&request("POST", None, None)));
}

#[test]
fn request_for_no_url_is_not_served() {
    let mut asking = request("OPTIONS", Some("GET"), Some("Origin"));
    asking.url_path = false;
    assert!(preflight(&asking).is_none());
    assert!(!proxy(&asking));
    assert!(routes(&asking).is_none());
}

#[test]
fn answer_may_be_read_by_the_origin_that_asked() {
    let asked = answer(None, Some(String::from("http://page.example")));
    assert_eq!(
        asked,
        Answer { failure: None, access: granted("http://page.example") }
    );
    assert_eq!(answer(None, None).access, granted("*"));
    assert_eq!(access(None), granted("*"));
    assert_eq!(access(Some(String::from("null"))), granted("null"));
}

#[test]
fn failure_changes_nothing_about_who_may_read_the_answer() {
    let failure = Error::BlockedTarget(String::from("why"));
    assert_eq!(answer(Some(&failure), None).access, granted("*"));
    let failure = Error::from(url::ParseError::EmptyHost);
    let told = answer(Some(&failure), Some(String::from("http://page.example")));
    assert_eq!(
        told,
        Answer {
            failure: Some(ErrorMessage { code: 500, message: String::from("empty host") }),
            access: granted("http://page.example"),
        }
    );
}
