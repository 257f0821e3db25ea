//! The URL a caller wants fetched.

use vstd::prelude::*;

use crate::address::IpAddress;
use crate::error::Error;

verus! {

/// Where a target lives: a name that has to be looked up, or an address.
#[derive(Debug, PartialEq, Eq)]
pub enum Host {
    Domain(String),
    Address(IpAddress),
}

/// What a [`Host`] says.
pub enum HostView {
    Domain(Seq<char>),
    Address(IpAddress),
}

impl View for Host {
    type V = HostView;

    open spec fn view(&self) -> HostView {
        match self {
            Host::Domain(name) => HostView::Domain(name@),
            Host::Address(address) => HostView::Address(*address),
        }
    }
}

/// A parsed URL: its normalised text, the scheme in lower case, and the host
/// where it has one.
#[derive(Debug, PartialEq, Eq)]
pub struct Target {
    pub text: String,
    pub scheme: String,
    pub host: Option<Host>,
}

/// What a [`Target`] says.
pub struct TargetView {
    pub text: Seq<char>,
    pub scheme: Seq<char>,
    pub host: Option<HostView>,
}

impl View for Target {
    type V = TargetView;

    open spec fn view(&self) -> TargetView {
        TargetView {
            text: self.text@,
            scheme: self.scheme@,
            host: match self.host {
                Some(host) => Some(host@),
                None => None,
            },
        }
    }
}

/// The schemes the proxy fetches.
pub open spec fn web_scheme(scheme: Seq<char>) -> bool {
    scheme == "http"@ || scheme == "https"@
}

#[verifier::external_type_specification]
#[verifier::external_body]
pub struct ExUrlParseError(url::ParseError);

/// What `url::Url::parse` makes of a text.
pub uninterp spec fn url_parse(text: Seq<char>) -> Result<TargetView, url::ParseError>;

/// Calls `url::Url::parse` and reads the text, the scheme and the host off the
/// result.
///
/// The outcome depends on the text alone and goes by the name `url_parse`. A
/// URL of the schemes `http` and `https` always has a host: the parser answers
/// an empty one with an error.
#[verifier::external_body]
fn parse_url(text: &str) -> (parsed: Result<Target, url::ParseError>)
    ensures
        match parsed {
            Ok(target) => url_parse(text@) == Ok::<TargetView, url::ParseError>(target@),
            Err(err) => url_parse(text@) == Err::<TargetView, url::ParseError>(err),
        },
        parsed matches Ok(target) ==> (web_scheme(target.scheme@) ==> target.host is Some),
{
    let url = url::Url::parse(text)?;
    let host = url.host().map(|host| match host {
        url::Host::Domain(name) => Host::Domain(name.to_owned()),
        url::Host::Ipv4(v4) => {
            let [a, b, c, d] = v4.octets();
            Host::Address(IpAddress::V4(a, b, c, d))
        }
        url::Host::Ipv6(v6) => {
            let [a, b, c, d, e, f, g, h] = v6.segments();
            Host::Address(IpAddress::V6(a, b, c, d, e, f, g, h))
        }
    });
    Ok(Target { text: url.as_str().to_owned(), scheme: url.scheme().to_owned(), host })
}

impl Target {
    /// Parses an absolute URL.
    pub fn parse(text: &str) -> (parsed: Result<Target, Error>)
        ensures
            match url_parse(text@) {
                Ok(target) => parsed matches Ok(found) && found@ == target,
                Err(err) => parsed == Err::<Target, Error>(Error::UrlParse(err)),
            },
            parsed matches Ok(found) ==> (web_scheme(found.scheme@) ==> found.host is Some),
    {
        match parse_url(text) {
            Ok(target) => Ok(target),
            Err(err) => Err(Error::from(err)),
        }
    }

    /// True for the schemes the proxy fetches.
    pub fn has_web_scheme(&self) -> (yes: bool)
        ensures
            yes == web_scheme(self@.scheme),
    {
        self.scheme == "http".to_owned() || self.scheme == "https".to_owned()
    }
}

/// A parsed target says field by field what the parser says, and a text that the
/// parser turns down is answered with the parser's own error.
pub proof fn target_is_what_the_parser_says(text: &str, parsed: Result<Target, Error>)
    requires
        call_ensures(Target::parse, (text,), parsed),
    ensures
        url_parse(text@) is Ok <==> parsed is Ok,
        url_parse(text@) matches Err(err) ==> parsed == Err::<Target, Error>(Error::UrlParse(err)),
        url_parse(text@) matches Ok(said) ==> (parsed matches Ok(target) && target.text@
            == said.text && target.scheme@ == said.scheme && match target.host {
            None => said.host is None,
            Some(Host::Domain(name)) => said.host matches Some(HostView::Domain(n)) && n == name@,
            Some(Host::Address(address)) => said.host matches Some(HostView::Address(a)) && a
                == address,
        }),
{
}

/// The proxy fetches `http` and `https` and nothing else.
pub proof fn web_schemes_are_http_and_https(target: Target, yes: bool)
    requires
        call_ensures(Target::has_web_scheme, (&target,), yes),
    ensures
        yes <==> target.scheme@ == "http"@ || target.scheme@ == "https"@,
        yes == web_scheme(target.scheme@),
{
}

} // verus!
