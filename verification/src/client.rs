//! A request on its way to its target, and the answer on its way back.

use vstd::prelude::*;
use vstd::string::*;
use vstd::utf8::*;

use crate::error::{http_status, Error};
use crate::headers::{
    client_fields, client_name, cookies_change_nothing, few_relayed_names, few_sent_names,
    field_name, field_value, fits, names, relayable, relayed, relayed_headers,
    relayed_is_writable_iff_each_is, sendable, sent, server_fields, server_writable, token_byte,
    try_to_reqwest_headers, FieldView, MAX_FIELDS, MAX_NAMES,
};
use crate::target::{url_parse, Host, HostView, Target, TargetView};

verus! {

#[verifier::external_type_specification]
#[verifier::external_body]
pub struct ExServerMethod(warp::http::Method);

#[verifier::external_type_specification]
#[verifier::external_body]
pub struct ExClientMethod(reqwest::Method);

/// What HTTP takes for the name of a method.
pub open spec fn method_token(bytes: Seq<u8>) -> bool {
    bytes.len() > 0 && forall|i: int| 0 <= i < bytes.len() ==> token_byte(#[trigger] bytes[i])
}

/// `warp::http::Method::as_str` gives the text that the method is displayed as.
/// The text is a token: a method cannot be made of anything else.
pub assume_specification[ warp::http::Method::as_str ](method: &warp::http::Method) -> (text: &str)
    ensures
        method_token(text.spec_bytes()),
        forall|shown: String|
            to_string_from_display_ensures::<warp::http::Method>(method, shown) <==> shown@
                == text@,
;

/// Calls `reqwest::Method::from_bytes`, which takes every token for a method
/// and nothing else. The method is displayed as the bytes that it was made of.
#[verifier::external_body]
fn parse_client_method(bytes: &[u8]) -> (parsed: Option<reqwest::Method>)
    ensures
        match parsed {
            Some(method) => method_token(bytes@) && forall|shown: String|
                #![trigger to_string_from_display_ensures::<reqwest::Method>(&method, shown)]
                to_string_from_display_ensures::<reqwest::Method>(&method, shown) <==> encode_utf8(
                    shown@,
                ) == bytes@,
            None => !method_token(bytes@),
        },
{
    reqwest::Method::from_bytes(bytes).ok()
}

/// True when both sides write the method the same way.
pub open spec fn same_method(client: reqwest::Method, server: warp::http::Method) -> bool {
    forall|shown: String|
        #![trigger to_string_from_display_ensures::<reqwest::Method>(&client, shown)]
        to_string_from_display_ensures::<reqwest::Method>(&client, shown)
            <==> to_string_from_display_ensures::<warp::http::Method>(&server, shown)
}

/// Converts a method of the server side into the same method of the client
/// side.
pub fn to_reqwest_method(method: &warp::http::Method) -> (out: reqwest::Method)
    ensures
        same_method(out, *method),
{
    let text = method.as_str();
    let out = parse_client_method(text.as_bytes()).expect(
        "a valid method is always a valid method",
    );
    assert forall|shown: String|
        #![trigger to_string_from_display_ensures::<reqwest::Method>(&out, shown)]
        to_string_from_display_ensures::<reqwest::Method>(&out, shown)
            <==> to_string_from_display_ensures::<warp::http::Method>(method, shown) by {
        encode_utf8_decode_utf8(shown@);
        encode_utf8_decode_utf8(text@);
    }
    out
}

/// The head of a request as the client sends it.
pub struct Outgoing {
    pub method: reqwest::Method,
    pub target: Target,
    pub headers: reqwest::header::HeaderMap,
}

/// The head of an answer as the page gets it.
pub struct Relayed {
    pub status: u16,
    pub headers: warp::http::HeaderMap,
}

/// True when `out` is what becomes of a request to `target`: the same method and
/// the fields that the client can write, or nothing where the client has no room
/// for them.
pub open spec fn readied(
    target: TargetView,
    method: warp::http::Method,
    headers: warp::http::HeaderMap,
    out: Option<Outgoing>,
) -> bool {
    match out {
        Some(request) => {
            &&& request.target@ == target
            &&& same_method(request.method, method)
            &&& server_fields(headers).len() <= MAX_FIELDS
            &&& client_fields(request.headers) == sent(server_fields(headers))
        },
        None => !fits(server_fields(headers)),
    }
}

/// Readies a request to `target`.
///
/// Gives `None` where the client has no room for the headers: always beyond
/// [`MAX_FIELDS`] fields, and beyond [`MAX_NAMES`] names that are sent, where it
/// depends on the names.
pub fn request_to(
    target: Target,
    method: &warp::http::Method,
    headers: &warp::http::HeaderMap,
) -> (out: Option<Outgoing>)
    ensures
        readied(target@, *method, *headers, out),
        out matches Some(request) ==> request.target == target,
{
    let method = to_reqwest_method(method);
    match try_to_reqwest_headers(headers) {
        Some(headers) => Some(Outgoing { method, target, headers }),
        None => None,
    }
}

/// Readies a request to the target that `uri` names.
///
/// Gives no request where the client has no room for the headers, as
/// [`request_to`] does.
pub fn outgoing_request(
    method: &warp::http::Method,
    uri: &str,
    headers: &warp::http::HeaderMap,
) -> (out: Result<Option<Outgoing>, Error>)
    ensures
        match url_parse(uri@) {
            Ok(target) => out matches Ok(request) && readied(target, *method, *headers, request),
            Err(err) => out matches Err(Error::UrlParse(found)) && found == err,
        },
{
    match Target::parse(uri) {
        Ok(target) => Ok(request_to(target, method, headers)),
        Err(err) => Err(err),
    }
}

/// True when `out` is what becomes of an answer with the status and the fields:
/// the same status and all fields but the cookies, or an error where HTTP has no
/// such status, or the page's side does not take a field or has no room for them.
pub open spec fn relays(status: u16, fields: Seq<FieldView>, out: Result<Relayed, Error>) -> bool {
    match out {
        Ok(answer) => {
            &&& 100 <= status < 1000
            &&& answer.status == status
            &&& server_writable(relayed(fields))
            &&& server_fields(answer.headers) == relayed(fields)
        },
        Err(err) => {
            &&& err is Http
            &&& status < 100 || 1000 <= status || !server_writable(relayed(fields)) || names(
                relayed(fields),
            ).len() > MAX_NAMES
        },
    }
}

/// Readies the answer of a target for the page that asked.
///
/// Up to [`MAX_NAMES`] names of header fields always fit; of more it depends on
/// the names whether there is room.
pub fn relayed_response(
    status: u16,
    headers: &reqwest::header::HeaderMap,
) -> (out: Result<Relayed, Error>)
    ensures
        relays(status, client_fields(*headers), out),
{
    let headers = match relayed_headers(headers) {
        Ok(headers) => headers,
        Err(err) => {
            return Err(err);
        },
    };
    match http_status(status) {
        Ok(status) => Ok(Relayed { status, headers }),
        Err(err) => Err(Error::from(err)),
    }
}

/// The page cannot tell two answers apart that differ in their cookies only:
/// where it gets both, they have the same status and the same fields. It gets
/// neither where HTTP has no such status or a field cannot be written, and both
/// where neither is so and the names are no more than [`MAX_NAMES`].
pub proof fn cookies_do_not_show_in_the_answer(
    status: u16,
    before1: Seq<FieldView>,
    cookies1: Seq<FieldView>,
    after1: Seq<FieldView>,
    before2: Seq<FieldView>,
    cookies2: Seq<FieldView>,
    after2: Seq<FieldView>,
    out1: Result<Relayed, Error>,
    out2: Result<Relayed, Error>,
)
    requires
        before1 + after1 == before2 + after2,
        forall|i: int| 0 <= i < cookies1.len() ==> (#[trigger] cookies1[i]).0 == "set-cookie"@,
        forall|i: int| 0 <= i < cookies2.len() ==> (#[trigger] cookies2[i]).0 == "set-cookie"@,
        relays(status, before1 + cookies1 + after1, out1),
        relays(status, before2 + cookies2 + after2, out2),
    ensures
        out1 matches Ok(answer1) ==> (out2 matches Ok(answer2) ==> answer1.status == answer2.status
            && server_fields(answer1.headers) == server_fields(answer2.headers)),
        status < 100 || 1000 <= status || !server_writable(relayed(before1 + cookies1 + after1))
            ==> out1 is Err && out2 is Err,
        100 <= status < 1000 && server_writable(relayed(before1 + cookies1 + after1)) && names(
            relayed(before1 + cookies1 + after1),
        ).len() <= MAX_NAMES ==> out1 is Ok && out2 is Ok,
{
    cookies_change_nothing(before1, cookies1, after1, before2, cookies2, after2);
}

/// The method that is sent is displayed like the one that came, for every method
/// and every text.
pub proof fn method_is_sent_as_it_came(
    method: warp::http::Method,
    out: reqwest::Method,
    shown: String,
)
    requires
        call_ensures(to_reqwest_method, (&method,), out),
    ensures
        to_string_from_display_ensures::<reqwest::Method>(&out, shown)
            <==> to_string_from_display_ensures::<warp::http::Method>(&method, shown),
{
}

/// A request goes to the target it was made for, with the method displayed like the
/// one that came, and with exactly those headers that the client can write. It is
/// made of every request with at most 24576 header fields and at most 6553 names
/// that are sent.
pub proof fn request_is_sent_on_as_it_came(
    target: Target,
    method: warp::http::Method,
    headers: warp::http::HeaderMap,
    out: Option<Outgoing>,
    shown: String,
    known: Seq<Seq<char>>,
)
    requires
        call_ensures(request_to, (target, &method, &headers), out),
        forall|i: int|
            0 <= i < server_fields(headers).len() && client_name(
                (#[trigger] server_fields(headers)[i]).0,
            ) && field_value(server_fields(headers)[i].1) ==> known.contains(
                server_fields(headers)[i].0,
            ),
    ensures
        out matches Some(request) ==> {
            &&& request.target == target
            &&& to_string_from_display_ensures::<reqwest::Method>(&request.method, shown)
                <==> to_string_from_display_ensures::<warp::http::Method>(&method, shown)
            &&& client_fields(request.headers) == server_fields(headers).filter(
                |field: FieldView| client_name(field.0) && field_value(field.1),
            )
        },
        server_fields(headers).len() > 24576 ==> out is None,
        server_fields(headers).len() <= 24576 && known.len() <= 6553 ==> out is Some,
{
    assert(sendable() =~= (|field: FieldView| client_name(field.0) && field_value(field.1)));
    few_sent_names(server_fields(headers), known);
}

/// A request to a text that is no URL fails with the parser's error. One to a URL
/// goes to what the parser makes of it, with the method displayed like the one that
/// came, and with exactly those headers that the client can write.
pub proof fn request_goes_to_the_target_that_is_named(
    method: warp::http::Method,
    uri: &str,
    headers: warp::http::HeaderMap,
    out: Result<Option<Outgoing>, Error>,
    shown: String,
    known: Seq<Seq<char>>,
)
    requires
        call_ensures(outgoing_request, (&method, uri, &headers), out),
        forall|i: int|
            0 <= i < server_fields(headers).len() && client_name(
                (#[trigger] server_fields(headers)[i]).0,
            ) && field_value(server_fields(headers)[i].1) ==> known.contains(
                server_fields(headers)[i].0,
            ),
    ensures
        url_parse(uri@) is Ok <==> out is Ok,
        url_parse(uri@) matches Err(err) ==> (out matches Err(Error::UrlParse(found)) && found
            == err),
        out matches Ok(Some(request)) ==> {
            &&& url_parse(uri@) matches Ok(said)
            &&& request.target.text@ == said.text
            &&& request.target.scheme@ == said.scheme
            &&& match request.target.host {
                None => said.host is None,
                Some(Host::Domain(name)) => said.host matches Some(HostView::Domain(n)) && n
                    == name@,
                Some(Host::Address(address)) => said.host matches Some(HostView::Address(a)) && a
                    == address,
            }
            &&& to_string_from_display_ensures::<reqwest::Method>(&request.method, shown)
                <==> to_string_from_display_ensures::<warp::http::Method>(&method, shown)
            &&& client_fields(request.headers) == server_fields(headers).filter(
                |field: FieldView| client_name(field.0) && field_value(field.1),
            )
        },
        server_fields(headers).len() > 24576 ==> !(out matches Ok(Some(_))),
        server_fields(headers).len() <= 24576 && known.len() <= 6553 ==> !(out matches Ok(None)),
{
    assert(sendable() =~= (|field: FieldView| client_name(field.0) && field_value(field.1)));
    few_sent_names(server_fields(headers), known);
}

/// The page gets the status that the target answered with and all header fields but
/// the cookies. It gets them for every status from 100 to 999 when the server can
/// write the fields and they have at most 6553 names.
pub proof fn answer_is_relayed_as_it_came(
    status: u16,
    headers: reqwest::header::HeaderMap,
    out: Result<Relayed, Error>,
    known: Seq<Seq<char>>,
)
    requires
        call_ensures(relayed_response, (status, &headers), out),
        forall|i: int|
            0 <= i < client_fields(headers).len() && (#[trigger] client_fields(headers)[i]).0
                != "set-cookie"@ ==> known.contains(client_fields(headers)[i].0),
    ensures
        out matches Ok(answer) ==> {
            &&& answer.status == status
            &&& server_fields(answer.headers) == client_fields(headers).filter(
                |field: FieldView| field.0 != "set-cookie"@,
            )
        },
        out matches Err(err) ==> err is Http,
        status < 100 || 1000 <= status ==> out is Err,
        100 <= status <= 999 && known.len() <= 6553 && (forall|i: int|
            0 <= i < client_fields(headers).len() && (#[trigger] client_fields(headers)[i]).0
                != "set-cookie"@ ==> field_name(client_fields(headers)[i].0) && field_value(
                client_fields(headers)[i].1,
            )) ==> out is Ok,
        out is Ok ==> (forall|i: int|
            0 <= i < client_fields(headers).len() && (#[trigger] client_fields(headers)[i]).0
                != "set-cookie"@ ==> field_name(client_fields(headers)[i].0) && field_value(
                client_fields(headers)[i].1,
            )),
{
    assert(relayable() =~= (|field: FieldView| field.0 != "set-cookie"@));
    few_relayed_names(client_fields(headers), known);
    relayed_is_writable_iff_each_is(client_fields(headers));
}

/// Two answers with different statuses never look the same to the page, and two
/// with the same status never look different in it.
pub proof fn statuses_are_told_apart(
    status1: u16,
    headers1: reqwest::header::HeaderMap,
    out1: Result<Relayed, Error>,
    status2: u16,
    headers2: reqwest::header::HeaderMap,
    out2: Result<Relayed, Error>,
)
    requires
        call_ensures(relayed_response, (status1, &headers1), out1),
        call_ensures(relayed_response, (status2, &headers2), out2),
    ensures
        out1 matches Ok(answer1) ==> (out2 matches Ok(answer2) ==> (answer1.status
            == answer2.status <==> status1 == status2)),
{
}

} // verus!
