//! What can go wrong, and what the caller is told about it.

use vstd::prelude::*;
use vstd::string::*;

use reqwest::Error as ClientError;
use std::io::Error as IoError;
use warp::http::Error as HttpError;
use warp::hyper::header::InvalidHeaderValue;
use warp::hyper::Error as ServerError;

use crate::ssrf::DeviceAddress;

verus! {

#[verifier::external_type_specification]
#[verifier::external_body]
pub struct ExHttpError(HttpError);

#[verifier::external_type_specification]
#[verifier::external_body]
pub struct ExServerError(ServerError);

#[verifier::external_type_specification]
#[verifier::external_body]
pub struct ExInvalidHeaderValue(InvalidHeaderValue);

#[verifier::external_type_specification]
#[verifier::external_body]
pub struct ExIoError(IoError);

#[verifier::external_type_specification]
#[verifier::external_body]
pub struct ExClientError(ClientError);

#[derive(Debug)]
pub enum Error {
    /// The caller asked for a target that is not allowed to be fetched.
    BlockedTarget(String),
    Http(HttpError),
    Hyper(ServerError),
    InvalidHeaderValue(InvalidHeaderValue),
    Io(IoError),
    Reqwest(ClientError),
    UrlParse(url::ParseError),
}

/// The body of an answer to a request that failed.
#[derive(Debug, PartialEq, Eq)]
pub struct ErrorMessage {
    pub code: u16,
    pub message: String,
}

/// What the refusal to fetch a target is answered with.
pub const FORBIDDEN: u16 = 403;

/// What every other failure is answered with.
pub const INTERNAL_SERVER_ERROR: u16 = 500;

impl Error {
    /// The status that the failure is answered with.
    pub open spec fn status(self) -> u16 {
        if self is BlockedTarget {
            FORBIDDEN
        } else {
            INTERNAL_SERVER_ERROR
        }
    }

    /// True when `text` is what the failure is described by: the reason of a
    /// refusal as it stands, and of any other failure the description that it
    /// came with.
    pub open spec fn described_by(self, text: String) -> bool {
        match self {
            Error::BlockedTarget(reason) => text@ == reason@,
            Error::Http(err) => to_string_from_display_ensures::<HttpError>(&err, text),
            Error::Hyper(err) => to_string_from_display_ensures::<ServerError>(&err, text),
            Error::InvalidHeaderValue(err) => to_string_from_display_ensures::<InvalidHeaderValue>(
                &err,
                text,
            ),
            Error::Io(err) => to_string_from_display_ensures::<IoError>(&err, text),
            Error::Reqwest(err) => to_string_from_display_ensures::<ClientError>(&err, text),
            Error::UrlParse(err) => to_string_from_display_ensures::<url::ParseError>(&err, text),
        }
    }

    /// True when the failure is answered with `message`.
    pub open spec fn answered_with(self, message: ErrorMessage) -> bool {
        message.code == self.status() && self.described_by(message.message)
    }

    /// A refused target is the caller's fault; everything else is ours.
    pub fn status_code(&self) -> (code: u16)
        ensures
            code == self.status(),
    {
        match self {
            Error::BlockedTarget(_) => FORBIDDEN,
            _ => INTERNAL_SERVER_ERROR,
        }
    }

    /// Describes the failure.
    pub fn message(&self) -> (text: String)
        ensures
            self.described_by(text),
    {
        match self {
            Error::BlockedTarget(reason) => reason.clone(),
            Error::Http(err) => err.to_string(),
            Error::Hyper(err) => err.to_string(),
            Error::InvalidHeaderValue(err) => err.to_string(),
            Error::Io(err) => err.to_string(),
            Error::Reqwest(err) => err.to_string(),
            Error::UrlParse(err) => err.to_string(),
        }
    }
}

impl vstd::std_specs::convert::FromSpecImpl<HttpError> for Error {
    open spec fn obeys_from_spec() -> bool {
        true
    }

    open spec fn from_spec(err: HttpError) -> Error {
        Error::Http(err)
    }
}

impl From<HttpError> for Error {
    fn from(err: HttpError) -> Error {
        Error::Http(err)
    }
}

impl vstd::std_specs::convert::FromSpecImpl<ServerError> for Error {
    open spec fn obeys_from_spec() -> bool {
        true
    }

    open spec fn from_spec(err: ServerError) -> Error {
        Error::Hyper(err)
    }
}

impl From<ServerError> for Error {
    fn from(err: ServerError) -> Error {
        Error::Hyper(err)
    }
}

impl vstd::std_specs::convert::FromSpecImpl<InvalidHeaderValue> for Error {
    open spec fn obeys_from_spec() -> bool {
        true
    }

    open spec fn from_spec(err: InvalidHeaderValue) -> Error {
        Error::InvalidHeaderValue(err)
    }
}

impl From<InvalidHeaderValue> for Error {
    fn from(err: InvalidHeaderValue) -> Error {
        Error::InvalidHeaderValue(err)
    }
}

impl vstd::std_specs::convert::FromSpecImpl<IoError> for Error {
    open spec fn obeys_from_spec() -> bool {
        true
    }

    open spec fn from_spec(err: IoError) -> Error {
        Error::Io(err)
    }
}

impl From<IoError> for Error {
    fn from(err: IoError) -> Error {
        Error::Io(err)
    }
}

impl vstd::std_specs::convert::FromSpecImpl<ClientError> for Error {
    open spec fn obeys_from_spec() -> bool {
        true
    }

    open spec fn from_spec(err: ClientError) -> Error {
        Error::Reqwest(err)
    }
}

impl From<ClientError> for Error {
    fn from(err: ClientError) -> Error {
        Error::Reqwest(err)
    }
}

impl vstd::std_specs::convert::FromSpecImpl<url::ParseError> for Error {
    open spec fn obeys_from_spec() -> bool {
        true
    }

    open spec fn from_spec(err: url::ParseError) -> Error {
        Error::UrlParse(err)
    }
}

impl From<url::ParseError> for Error {
    fn from(err: url::ParseError) -> Error {
        Error::UrlParse(err)
    }
}

/// Calls `warp::http::StatusCode::from_u16`, which takes the numbers from 100
/// to 999 for status codes and answers any other with an error.
#[verifier::external_body]
pub(crate) fn http_status(code: u16) -> (status: Result<u16, HttpError>)
    ensures
        match status {
            Ok(number) => 100 <= code < 1000 && number == code,
            Err(_) => code < 100 || 1000 <= code,
        },
{
    let status = warp::http::StatusCode::from_u16(code)?;
    Ok(status.as_u16())
}

/// Answers a request that was turned down: with the status and the description
/// of the failure where the cause is one of ours, and not at all where it is
/// something else.
pub fn recover(cause: Option<&Error>) -> (answer: Option<ErrorMessage>)
    ensures
        match cause {
            Some(err) => answer matches Some(message) && err.answered_with(message),
            None => answer is None,
        },
{
    match cause {
        Some(err) => {
            let code = http_status(err.status_code()).unwrap();
            Some(ErrorMessage { code, message: err.message() })
        },
        None => None,
    }
}

/// One error in a chain of errors, each the source of the one before it.
#[derive(Debug, PartialEq, Eq)]
pub enum Link {
    /// An [`Error::BlockedTarget`], with its reason.
    BlockedTarget(String),
    /// A refusal by the resolver.
    DeviceAddress(DeviceAddress),
    /// Any other error.
    Other,
}

impl Link {
    /// The reason of the refusal that the link is, if it is one.
    pub open spec fn refusal(self) -> Option<Seq<char>> {
        match self {
            Link::BlockedTarget(reason) => Some(reason@),
            Link::DeviceAddress(_) => Some("Target is an address of this device"@),
            Link::Other => None,
        }
    }
}

/// The reason of the outermost refusal in a chain.
pub open spec fn first_refusal(chain: Seq<Link>) -> Option<Seq<char>>
    decreases chain.len(),
{
    if chain.len() == 0 {
        None
    } else if chain[0].refusal() is Some {
        chain[0].refusal()
    } else {
        first_refusal(chain.drop_first())
    }
}

/// Finds the outermost refusal in a chain of errors, outermost first.
pub fn refusal_in_chain(chain: &Vec<Link>) -> (found: Option<Error>)
    ensures
        match first_refusal(chain@) {
            Some(reason) => found matches Some(Error::BlockedTarget(text)) && text@ == reason,
            None => found is None,
        },
{
    let mut next: usize = 0;
    assert(chain@.skip(0) =~= chain@);
    while next < chain.len()
        invariant
            next <= chain@.len(),
            first_refusal(chain@.skip(next as int)) == first_refusal(chain@),
        decreases chain@.len() - next,
    {
        assert(chain@.skip(next as int)[0] == chain@[next as int]);
        match &chain[next] {
            Link::BlockedTarget(reason) => {
                return Some(Error::BlockedTarget(reason.clone()));
            },
            Link::DeviceAddress(refusal) => {
                return Some(Error::BlockedTarget(refusal.message()));
            },
            Link::Other => {},
        }
        assert(chain@.skip(next as int).drop_first() =~= chain@.skip(next + 1));
        next += 1;
    }
    None
}

/// True when `failure` is what becomes of the client's `err`: the outermost
/// refusal in its chain, or else `err` itself.
pub open spec fn comes_of(chain: Seq<Link>, err: ClientError, failure: Error) -> bool {
    match first_refusal(chain) {
        Some(reason) => failure matches Error::BlockedTarget(text) && text@ == reason,
        None => failure == Error::Reqwest(err),
    }
}

/// Turns a failure from the HTTP client into ours.
///
/// A refusal raised inside the client comes back wrapped in an error of the
/// client's. Taken at face value that is an [`Error::Reqwest`], which answers
/// 500 and drops the reason, so the path that exists precisely to catch a
/// rebinding host would report itself as our own fault. `chain` is `err` with
/// all its sources; the refusal in it is put back.
pub fn from_client_error(chain: &Vec<Link>, err: ClientError) -> (failure: Error)
    ensures
        comes_of(chain@, err, failure),
{
    match refusal_in_chain(chain) {
        Some(refusal) => refusal,
        None => Error::from(err),
    }
}

/// A refusal survives any number of errors wrapped around it, and the reason
/// with it.
pub proof fn buried_refusal_is_found(chain: Seq<Link>, depth: int)
    requires
        0 <= depth < chain.len(),
        chain[depth].refusal() is Some,
        forall|i: int| 0 <= i < depth ==> (#[trigger] chain[i]).refusal() is None,
    ensures
        first_refusal(chain) == chain[depth].refusal(),
    decreases depth,
{
    if depth > 0 {
        assert(chain[0].refusal() is None);
        assert forall|i: int| 0 <= i < depth - 1 implies (
        #[trigger] chain.drop_first()[i]).refusal() is None by {
            assert(chain.drop_first()[i] == chain[i + 1]);
        }
        assert(chain.drop_first()[depth - 1] == chain[depth]);
        buried_refusal_is_found(chain.drop_first(), depth - 1);
    }
}

/// No refusal is found where there is none.
pub proof fn no_refusal_is_made_up(chain: Seq<Link>)
    ensures
        first_refusal(chain) is None <==> (forall|i: int|
            0 <= i < chain.len() ==> (#[trigger] chain[i]).refusal() is None),
    decreases chain.len(),
{
    if chain.len() > 0 {
        let rest = chain.drop_first();
        no_refusal_is_made_up(rest);
        if chain[0].refusal() is None {
            if first_refusal(rest) is None {
                assert forall|i: int| 0 <= i < chain.len() implies (
                #[trigger] chain[i]).refusal() is None by {
                    if i > 0 {
                        assert(rest[i - 1] == chain[i]);
                    }
                }
            } else {
                let i = choose|i: int|
                    0 <= i < rest.len() && (#[trigger] rest[i]).refusal() is Some;
                assert(chain[i + 1] == rest[i]);
            }
        }
    }
}

/// A refused target is the caller's fault, and everything else is ours; either
/// way the answer carries a status that HTTP has.
pub proof fn only_a_refusal_is_the_callers_fault(err: Error)
    ensures
        err.status() == 403 <==> err is BlockedTarget,
        err.status() == 500 <==> err !is BlockedTarget,
        100 <= err.status() < 1000,
{
}

/// Whoever asks for a refused target is told 403 and the reason, word for word.
pub proof fn refusal_is_answered_with_its_reason(reason: String, message: ErrorMessage)
    requires
        Error::BlockedTarget(reason).answered_with(message),
    ensures
        message.code == 403,
        message.message@ == reason@,
{
}

/// A refusal that was raised inside the client is answered like one that was
/// raised before it, however deep it is buried.
pub proof fn refusal_inside_the_client_is_answered_like_any_other(
    chain: Seq<Link>,
    depth: int,
    err: ClientError,
    failure: Error,
    message: ErrorMessage,
)
    requires
        0 <= depth < chain.len(),
        chain[depth].refusal() is Some,
        forall|i: int| 0 <= i < depth ==> (#[trigger] chain[i]).refusal() is None,
        comes_of(chain, err, failure),
        failure.answered_with(message),
    ensures
        message.code == 403,
        Some(message.message@) == chain[depth].refusal(),
{
    buried_refusal_is_found(chain, depth);
}

/// A failure of the client with no refusal in it is our own.
pub proof fn other_client_failure_is_ours(
    chain: Seq<Link>,
    err: ClientError,
    failure: Error,
    message: ErrorMessage,
)
    requires
        forall|i: int| 0 <= i < chain.len() ==> (#[trigger] chain[i]).refusal() is None,
        comes_of(chain, err, failure),
        failure.answered_with(message),
    ensures
        failure == Error::Reqwest(err),
        message.code == 500,
{
    no_refusal_is_made_up(chain);
}

/// A refusal has the status 403 and is described by its reason, word for word;
/// any other failure has the status 500 and is described as it describes itself.
pub proof fn failure_speaks_for_itself(err: Error, code: u16, text: String)
    requires
        call_ensures(Error::status_code, (&err,), code),
        call_ensures(Error::message, (&err,), text),
    ensures
        err is BlockedTarget ==> code == 403,
        err !is BlockedTarget ==> code == 500,
        err matches Error::BlockedTarget(reason) ==> text@ == reason@,
        err matches Error::Http(e) ==> to_string_from_display_ensures::<HttpError>(&e, text),
        err matches Error::Hyper(e) ==> to_string_from_display_ensures::<ServerError>(&e, text),
        err matches Error::InvalidHeaderValue(e) ==> to_string_from_display_ensures::<
            InvalidHeaderValue,
        >(&e, text),
        err matches Error::Io(e) ==> to_string_from_display_ensures::<IoError>(&e, text),
        err matches Error::Reqwest(e) ==> to_string_from_display_ensures::<ClientError>(&e, text),
        err matches Error::UrlParse(e) ==> to_string_from_display_ensures::<url::ParseError>(
            &e,
            text,
        ),
{
}

/// A failure of ours is answered with its own status and description; nothing
/// else is answered.
pub proof fn failure_is_answered_as_it_speaks(cause: Option<&Error>, answer: Option<ErrorMessage>)
    requires
        call_ensures(recover, (cause,), answer),
    ensures
        cause is Some <==> answer is Some,
        cause matches Some(err) ==> (answer matches Some(message) && message.code == (if err is BlockedTarget {
            403u16
        } else {
            500u16
        }) && err.described_by(message.message)),
        cause matches Some(Error::BlockedTarget(reason)) ==> (answer matches Some(message)
            && message.message@ == reason@),
{
}

/// A failure that is turned into one of ours keeps what it was.
pub proof fn conversions_wrap_the_failure(
    http: HttpError,
    of_http: Error,
    server: ServerError,
    of_server: Error,
    value: InvalidHeaderValue,
    of_value: Error,
    io: IoError,
    of_io: Error,
    client: ClientError,
    of_client: Error,
    url: url::ParseError,
    of_url: Error,
)
    requires
        call_ensures(<Error as From<HttpError>>::from, (http,), of_http),
        call_ensures(<Error as From<ServerError>>::from, (server,), of_server),
        call_ensures(<Error as From<InvalidHeaderValue>>::from, (value,), of_value),
        call_ensures(<Error as From<IoError>>::from, (io,), of_io),
        call_ensures(<Error as From<ClientError>>::from, (client,), of_client),
        call_ensures(<Error as From<url::ParseError>>::from, (url,), of_url),
    ensures
        of_http == Error::Http(http),
        of_server == Error::Hyper(server),
        of_value == Error::InvalidHeaderValue(value),
        of_io == Error::Io(io),
        of_client == Error::Reqwest(client),
        of_url == Error::UrlParse(url),
{
}

/// Of a chain the refusal at `depth` is found, with its own words, when none
/// stands before it; what stands behind it makes no difference.
pub proof fn outermost_refusal_is_found(chain: Vec<Link>, depth: int, found: Option<Error>)
    requires
        call_ensures(refusal_in_chain, (&chain,), found),
        0 <= depth < chain@.len(),
        chain@[depth] !is Other,
        forall|i: int| 0 <= i < depth ==> #[trigger] chain@[i] is Other,
    ensures
        found matches Some(Error::BlockedTarget(reason)) && match chain@[depth] {
            Link::BlockedTarget(text) => reason@ == text@,
            Link::DeviceAddress(_) => reason@ == "Target is an address of this device"@,
            Link::Other => false,
        },
{
    assert forall|i: int| 0 <= i < depth implies (#[trigger] chain@[i]).refusal() is None by {
        assert(chain@[i] is Other);
    }
    buried_refusal_is_found(chain@, depth);
}

/// Of a chain without a refusal none is found.
pub proof fn chain_without_a_refusal_has_none(chain: Vec<Link>, found: Option<Error>)
    requires
        call_ensures(refusal_in_chain, (&chain,), found),
        forall|i: int| 0 <= i < chain@.len() ==> #[trigger] chain@[i] is Other,
    ensures
        found is None,
{
    assert forall|i: int| 0 <= i < chain@.len() implies (#[trigger] chain@[i]).refusal() is None by {
        assert(chain@[i] is Other);
    }
    no_refusal_is_made_up(chain@);
}

/// A failure of the client becomes the outermost refusal in its chain, and stays
/// what it is where there is none.
pub proof fn client_failure_becomes_its_refusal(
    chain: Vec<Link>,
    err: ClientError,
    failure: Error,
    found: Option<Error>,
)
    requires
        call_ensures(from_client_error, (&chain, err), failure),
        call_ensures(refusal_in_chain, (&chain,), found),
    ensures
        found is None ==> failure == Error::Reqwest(err),
        found matches Some(Error::BlockedTarget(reason)) ==> (failure matches Error::BlockedTarget(
            text,
        ) && text@ == reason@),
        found matches Some(refusal) ==> refusal is BlockedTarget,
{
}

} // verus!
