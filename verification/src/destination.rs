//! Where a webhook goes: the destination URL taken apart into the host to
//! resolve, the port to connect to and the address to post to.

use url::Url;
use vstd::prelude::*;
use vstd::string::StringExecFns;

verus! {

/// What the dispatcher reads from a URL that parsed.
#[derive(Clone, Debug, PartialEq, Eq)]
pub struct ParsedUrl {
    /// The URL as the parser writes it out again.
    pub href: String,
    /// The host, where the URL has one.
    pub host: Option<String>,
    /// The port: the one written in the URL, else the default of a scheme
    /// that has one.
    pub port: Option<u16>,
}

/// The texts of a `ParsedUrl`.
pub struct ParsedUrlView {
    pub href: Seq<char>,
    pub host: Option<Seq<char>>,
    pub port: Option<u16>,
}

impl View for ParsedUrl {
    type V = ParsedUrlView;

    open spec fn view(&self) -> ParsedUrlView {
        ParsedUrlView {
            href: self.href@,
            host: match self.host {
                Some(h) => Some(h@),
                None => None,
            },
            port: self.port,
        }
    }
}

/// A destination a request can be sent to.
#[derive(Clone, Debug, PartialEq, Eq)]
pub struct Destination {
    /// The address to post to.
    pub url: String,
    /// The host to resolve, and to present to the receiver.
    pub host: String,
    /// The port to connect to.
    pub port: u16,
}

/// The texts of a `Destination`.
pub struct DestinationView {
    pub url: Seq<char>,
    pub host: Seq<char>,
    pub port: u16,
}

impl View for Destination {
    type V = DestinationView;

    open spec fn view(&self) -> DestinationView {
        DestinationView { url: self.url@, host: self.host@, port: self.port }
    }
}

/// The port used where neither the URL nor its scheme gives one.
pub const DEFAULT_PORT: u16 = 80;

/// What `Url::parse` makes of `input`: the parts of the URL, or the text of
/// the parser's error.
pub uninterp spec fn url_parts(input: Seq<char>) -> Result<ParsedUrlView, Seq<char>>;

/// The texts of a parse result.
pub open spec fn parse_result_view(parsed: Result<ParsedUrl, String>) -> Result<
    ParsedUrlView,
    Seq<char>,
> {
    match parsed {
        Ok(p) => Ok(p@),
        Err(e) => Err(e@),
    }
}

/// Calls `Url::parse` of the crate `url` and, on the URL it returns,
/// `as_str`, `host_str` and `port_or_known_default`; an error is written out
/// with its `Display`. Trusted: the result is what `url_parts` names for the
/// input.
#[verifier::external_body]
fn parse_url(input: &str) -> (parsed: Result<ParsedUrl, String>)
    ensures
        parse_result_view(parsed) == url_parts(input@),
{
    match Url::parse(input) {
        Ok(url) => Ok(
            ParsedUrl {
                href: url.as_str().to_string(),
                host: url.host_str().map(|h| h.to_string()),
                port: url.port_or_known_default(),
            },
        ),
        Err(e) => Err(e.to_string()),
    }
}

/// The destination that a parse result stands for, or the text that says
/// why there is none: the URL did not parse, or it names no host.
pub open spec fn spec_destination(parsed: Result<ParsedUrlView, Seq<char>>) -> Result<
    DestinationView,
    Seq<char>,
> {
    match parsed {
        Err(e) => Err("Invalid URL: "@ + e),
        Ok(p) => match p.host {
            None => Err("URL missing host"@),
            Some(h) => Ok(
                DestinationView {
                    url: p.href,
                    host: h,
                    port: match p.port {
                        Some(port) => port,
                        None => DEFAULT_PORT,
                    },
                },
            ),
        },
    }
}

/// The texts of a destination, or of the reason for its absence.
pub open spec fn destination_result_view(r: Result<Destination, String>) -> Result<
    DestinationView,
    Seq<char>,
> {
    match r {
        Ok(d) => Ok(d@),
        Err(e) => Err(e@),
    }
}

/// Turns a parse result into a destination: the parsed URL's host, its port
/// or else port 80, and its address. A URL that did not parse and a URL
/// without a host give the text for the audit record instead.
pub fn destination_of(parsed: Result<ParsedUrl, String>) -> (r: Result<Destination, String>)
    ensures
        destination_result_view(r) == spec_destination(parse_result_view(parsed)),
{
    match parsed {
        Err(e) => Err(String::from_str("Invalid URL: ").concat(e.as_str())),
        Ok(p) => match p.host {
            None => Err(String::from_str("URL missing host")),
            Some(h) => {
                let port = match p.port {
                    Some(port) => port,
                    None => DEFAULT_PORT,
                };
                Ok(Destination { url: p.href, host: h, port })
            },
        },
    }
}

/// Parses a webhook URL into the destination to deliver to.
pub fn resolve_destination(webhook_url: &str) -> (r: Result<Destination, String>)
    ensures
        destination_result_view(r) == spec_destination(url_parts(webhook_url@)),
{
    destination_of(parse_url(webhook_url))
}

} // verus!
