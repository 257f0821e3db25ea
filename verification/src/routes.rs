//! Which requests are served, and what every answer carries.

use vstd::prelude::*;

use crate::address::{canonical, loopback, IpAddress};
use crate::error::{recover, Error, ErrorMessage};
use crate::ssrf::{
    begun, device_reason, literal_target_is_refused_iff_blocked,
    loopback_is_blocked_on_every_device, verdict,
};
use crate::target::{web_scheme, HostView, TargetView};

verus! {

/// What routing looks at in a request.
#[derive(Debug)]
pub struct Inbound {
    /// Whether the path of the request is a URL.
    pub url_path: bool,
    pub method: String,
    /// The header `access-control-request-method`.
    pub request_method: Option<String>,
    /// The header `access-control-request-headers`.
    pub request_headers: Option<String>,
}

/// What a page asks leave for before it sends a request across origins.
#[derive(Debug, PartialEq, Eq)]
pub struct Preflight {
    pub method: String,
    pub headers: String,
}

/// Where a request goes.
#[derive(Debug, PartialEq, Eq)]
pub enum Route {
    /// The proxy answers for the target, without asking it.
    Preflight(Preflight),
    /// The target answers.
    Proxy,
}

/// What makes a request one that asks leave: a URL for a path, the method
/// `OPTIONS`, and both headers that say what for.
pub open spec fn asks_leave(request: Inbound) -> bool {
    &&& request.url_path
    &&& request.method@ == "OPTIONS"@
    &&& request.request_method is Some
    &&& request.request_headers is Some
}

/// Reads off a request what it asks leave for.
pub fn preflight(request: &Inbound) -> (asked: Option<Preflight>)
    ensures
        match asked {
            Some(asked) => asks_leave(*request) && request.request_method == Some(asked.method)
                && request.request_headers == Some(asked.headers),
            None => !asks_leave(*request),
        },
{
    if !request.url_path || request.method != "OPTIONS".to_owned() {
        return None;
    }
    match (&request.request_method, &request.request_headers) {
        (Some(method), Some(headers)) => Some(
            Preflight { method: method.clone(), headers: headers.clone() },
        ),
        _ => None,
    }
}

/// True when the request is one to be passed on.
pub fn proxy(request: &Inbound) -> (yes: bool)
    ensures
        yes == request.url_path,
{
    request.url_path
}

/// Decides where a request goes. One that asks leave for another is answered
/// on the spot; any other whose path is a URL is passed on; the rest is not
/// served.
pub fn routes(request: &Inbound) -> (route: Option<Route>)
    ensures
        match route {
            Some(Route::Preflight(asked)) => asks_leave(*request) && request.request_method == Some(
                asked.method,
            ) && request.request_headers == Some(asked.headers),
            Some(Route::Proxy) => request.url_path && !asks_leave(*request),
            None => !request.url_path,
        },
{
    match preflight(request) {
        Some(asked) => Some(Route::Preflight(asked)),
        None => {
            if proxy(request) {
                Some(Route::Proxy)
            } else {
                None
            }
        },
    }
}

/// The origin that may read the answer to a request from `origin`.
pub open spec fn allowed_origin(origin: Option<String>) -> Seq<char> {
    match origin {
        Some(origin) => origin@,
        None => "*"@,
    }
}

/// The headers that let a page read an answer.
#[derive(Debug, PartialEq, Eq)]
pub struct Access {
    /// The header `access-control-allow-origin`.
    pub allow_origin: String,
    /// The header `access-control-allow-credentials`.
    pub allow_credentials: String,
}

/// True when `access` lets `origin` read an answer, also one to a request with
/// credentials.
pub open spec fn grants(access: Access, origin: Option<String>) -> bool {
    access.allow_origin@ == allowed_origin(origin) && access.allow_credentials@ == "true"@
}

/// The headers that every answer to a request from `origin` carries.
pub fn access(origin: Option<String>) -> (access: Access)
    ensures
        grants(access, origin),
{
    let allow_origin = match origin {
        Some(origin) => origin,
        None => "*".to_owned(),
    };
    Access { allow_origin, allow_credentials: "true".to_owned() }
}

/// What is added to the answer to a request.
#[derive(Debug, PartialEq, Eq)]
pub struct Answer {
    /// What stands in for the answer where there is none.
    pub failure: Option<ErrorMessage>,
    pub access: Access,
}

/// True when `answer` is what a request from `origin` ends with: a failure is
/// answered, and with or without one the origin may read the answer.
pub open spec fn completes(
    failure: Option<Error>,
    origin: Option<String>,
    answer: Answer,
) -> bool {
    &&& match failure {
        Some(err) => answer.failure matches Some(message) && err.answered_with(message),
        None => answer.failure is None,
    }
    &&& grants(answer.access, origin)
}

/// Completes the answer to a request from `origin`, which may have ended in a
/// failure.
///
/// A failure is turned into an answer before the headers are added, so that it
/// carries them too. A refusal without them is one the browser will not let the
/// page read, and the reason would reach nobody.
pub fn answer(failure: Option<&Error>, origin: Option<String>) -> (answer: Answer)
    ensures
        match failure {
            Some(err) => completes(Some(*err), origin, answer),
            None => completes(None, origin, answer),
        },
{
    Answer { failure: recover(failure), access: access(origin) }
}

/// The page that asked for a refused target can read the refusal: the answer is
/// 403 with the reason, it names the page's own origin, or every origin where the
/// page sent none, and it allows credentials.
pub proof fn refusal_can_be_read_by_the_page(
    reason: String,
    origin: Option<String>,
    answer: Answer,
)
    requires
        completes(Some(Error::BlockedTarget(reason)), origin, answer),
    ensures
        answer.failure matches Some(message) && message.code == 403 && message.message@ == reason@,
        origin matches Some(page) ==> answer.access.allow_origin@ == page@,
        origin is None ==> answer.access.allow_origin@ == "*"@,
        answer.access.allow_credentials@ == "true"@,
{
}

/// A failure changes nothing about who may read the answer: an answer to one
/// carries the same origin and the same leave for credentials as any other.
pub proof fn every_answer_carries_the_same_headers(
    failure1: Option<Error>,
    failure2: Option<Error>,
    origin: Option<String>,
    answer1: Answer,
    answer2: Answer,
)
    requires
        completes(failure1, origin, answer1),
        completes(failure2, origin, answer2),
    ensures
        answer1.access.allow_origin@ == allowed_origin(origin),
        answer1.access.allow_origin@ == answer2.access.allow_origin@,
        answer1.access.allow_credentials@ == "true"@,
        answer1.access.allow_credentials@ == answer2.access.allow_credentials@,
{
}

/// A page that names a target on loopback is told 403 and that the target is an
/// address of this device, in an answer that it can read. Neither the device
/// nor a lookup has a say in it.
pub proof fn loopback_target_is_answered_with_a_refusal(
    url: TargetView,
    address: IpAddress,
    lookup: spec_fn(Seq<char>) -> Option<Seq<IpAddress>>,
    device: spec_fn(IpAddress) -> bool,
    reason: String,
    origin: Option<String>,
    answer: Answer,
)
    requires
        web_scheme(url.scheme),
        url.host == Some(HostView::Address(address)),
        loopback(canonical(address)),
        verdict(begun(url), lookup, device) == Some(reason@),
        completes(Some(Error::BlockedTarget(reason)), origin, answer),
    ensures
        verdict(begun(url), lookup, device) == Some(device_reason(url.text)),
        answer.failure matches Some(message) && message.code == 403 && message.message@
            == device_reason(url.text),
        grants(answer.access, origin),
{
    loopback_is_blocked_on_every_device(address, device);
    literal_target_is_refused_iff_blocked(url, address, lookup, device);
}

/// A request asks leave exactly when its path is a URL, its method `OPTIONS`, and
/// both headers are there, whatever they say; and leave is asked for just what
/// they say.
pub proof fn preflight_goes_by_the_headers_being_there(request: Inbound, asked: Option<Preflight>)
    requires
        call_ensures(preflight, (&request,), asked),
    ensures
        asked is Some <==> request.url_path && request.method@ == "OPTIONS"@
            && request.request_method is Some && request.request_headers is Some,
        asked matches Some(asked) ==> {
            &&& request.request_method matches Some(method) && asked.method@ == method@
            &&& request.request_headers matches Some(headers) && asked.headers@ == headers@
        },
{
}

/// Two requests that differ only in what their two headers say both ask leave or
/// neither does, and take the same route.
pub proof fn values_of_the_headers_change_no_route(
    request1: Inbound,
    request2: Inbound,
    route1: Option<Route>,
    route2: Option<Route>,
)
    requires
        call_ensures(routes, (&request1,), route1),
        call_ensures(routes, (&request2,), route2),
        request1.url_path == request2.url_path,
        request1.method@ == request2.method@,
        request1.request_method is Some == request2.request_method is Some,
        request1.request_headers is Some == request2.request_headers is Some,
    ensures
        route1 is None <==> route2 is None,
        route1 matches Some(Route::Preflight(_)) <==> route2 matches Some(Route::Preflight(_)),
        route1 matches Some(Route::Proxy) <==> route2 matches Some(Route::Proxy),
{
}

/// Every request whose path is a URL is served and no other is. One that asks
/// leave is answered on the spot with what it asks for, any other is passed on.
pub proof fn every_request_for_a_url_is_served(
    request: Inbound,
    route: Option<Route>,
    asked: Option<Preflight>,
    passed_on: bool,
)
    requires
        call_ensures(routes, (&request,), route),
        call_ensures(preflight, (&request,), asked),
        call_ensures(proxy, (&request,), passed_on),
    ensures
        passed_on == request.url_path,
        route is Some <==> request.url_path,
        route matches Some(Route::Preflight(_)) <==> asked is Some,
        route matches Some(Route::Proxy) <==> request.url_path && asked is None,
        route matches Some(Route::Preflight(answered)) ==> (asked matches Some(asked)
            && answered.method@ == asked.method@ && answered.headers@ == asked.headers@),
        request.method@ != "OPTIONS"@ && request.url_path ==> route matches Some(Route::Proxy),
{
}

/// The page's own origin is allowed, and every origin where the page names none;
/// credentials are always allowed.
pub proof fn own_origin_and_credentials_are_allowed(origin: Option<String>, given: Access)
    requires
        call_ensures(access, (origin,), given),
    ensures
        origin matches Some(page) ==> given.allow_origin@ == page@,
        origin is None ==> given.allow_origin@ == "*"@,
        given.allow_credentials@ == "true"@,
{
}

/// What a request ends with is told by its failure and its origin alone: a
/// refusal gives 403 with its reason, any other failure 500, no failure leaves the
/// answer alone, and the headers are those of the origin each time.
pub proof fn answer_tells_the_failure_and_the_origin(
    failure: Option<&Error>,
    origin: Option<String>,
    given: Answer,
)
    requires
        call_ensures(answer, (failure, origin), given),
    ensures
        failure is None <==> given.failure is None,
        failure matches Some(Error::BlockedTarget(reason)) ==> (given.failure matches Some(message)
            && message.code == 403 && message.message@ == reason@),
        failure matches Some(err) ==> (err !is BlockedTarget ==> (given.failure matches Some(message)
            && message.code == 500 && err.described_by(message.message))),
        origin matches Some(page) ==> given.access.allow_origin@ == page@,
        origin is None ==> given.access.allow_origin@ == "*"@,
        given.access.allow_credentials@ == "true"@,
{
}

} // verus!
