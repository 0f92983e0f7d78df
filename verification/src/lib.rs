//! Utilities for creating chat bots for racetime.gg: the decisions such a bot
//! makes, stated and proved.
//!
//! The main entry point of a bot is its connection loop, driven step by step by
//! [`connection::HandleState::step`]. Race rooms are created and edited with the
//! forms of [`StartRace`] and [`EditRace`].
use vstd::prelude::*;
use vstd::string::*;

pub mod bot;
pub mod builder;
pub mod connection;
pub mod duration;
pub mod handler;
pub mod messages;
pub mod model;
pub mod rooms;
pub mod text;

pub use crate::builder::BotBuilder;
pub use crate::duration::UDuration;
pub use crate::rooms::{EditRace, StartRace, form_bool};

use crate::rooms::{Form, form_view, push_field};
use crate::text::decimal;
use crate::text::decimal_string;

verus! {

/// The host of racetime.gg.
pub const RACETIME_HOST: &'static str = "racetime.gg";

/// Whether the text parses as a URL, as the url crate reads URLs.
pub uninterp spec fn url_parses(text: Seq<char>) -> bool;

/// The outside URL type of the url crate, carried through unchanged.
#[verifier::external_type_specification]
#[verifier::external_body]
pub struct ExternalUrl(url::Url);

/// The outside error type of the url crate, carried through unchanged.
#[verifier::external_type_specification]
#[verifier::external_body]
pub struct ExternalUrlParseError(url::ParseError);

/// The text of the URL that the url crate parses from `text`, as it writes the
/// URL out (`Url::as_str`); meaningful where `url_parses(text)`.
pub uninterp spec fn url_serialization(text: Seq<char>) -> Seq<char>;

/// A URL read by the url crate, together with the text it was read from.
///
/// Its view is the URL's text as the url crate writes it out.
pub struct ParsedUrl {
    url: url::Url,
    serialization: Ghost<Seq<char>>,
}

impl View for ParsedUrl {
    type V = Seq<char>;

    closed spec fn view(&self) -> Seq<char> {
        self.serialization@
    }
}

impl ParsedUrl {
    /// The URL itself.
    pub fn url(&self) -> &url::Url {
        &self.url
    }

    /// The URL itself, taken out.
    pub fn into_url(self) -> url::Url {
        self.url
    }
}

/// Wraps `url::Url::parse`.
///
/// Trusted: whether parsing succeeds, and the text of the URL it gives, depend
/// on the text alone, as named by `url_parses` and `url_serialization`. The
/// URL's parts (scheme, host, path) are reached only through the url crate.
#[verifier::external_body]
fn parse_url(text: &str) -> (r: Result<ParsedUrl, url::ParseError>)
    ensures
        r is Ok == url_parses(text@),
        r matches Ok(u) ==> u@ == url_serialization(text@),
{
    match url::Url::parse(text) {
        Ok(url) => Ok(ParsedUrl { url, serialization: Ghost(url_serialization(text@)) }),
        Err(e) => Err(e),
    }
}

/// The text of the URI for a protocol, a host and a path: `<proto>://<host><url>`.
pub open spec fn uri_text(proto: Seq<char>, host: Seq<char>, url: Seq<char>) -> Seq<char> {
    proto + "://"@ + host + url
}

/// The URI for a protocol, a host and a URL path fragment.
pub fn uri(proto: &str, host: &str, url: &str) -> (r: Result<ParsedUrl, url::ParseError>)
    ensures
        r is Ok == url_parses(uri_text(proto@, host@, url@)),
        r matches Ok(u) ==> u@ == url_serialization(uri_text(proto@, host@, url@)),
{
    let text = String::from_str(proto).concat("://").concat(host).concat(url);
    parse_url(text.as_str())
}

/// The HTTPS URI for a host and a URL path fragment.
pub fn http_uri(host: &str, url: &str) -> (r: Result<ParsedUrl, url::ParseError>)
    ensures
        r is Ok == url_parses(uri_text("https"@, host@, url@)),
        r matches Ok(u) ==> u@ == url_serialization(uri_text("https"@, host@, url@)),
{
    uri("https", host, url)
}

/// The server a bot talks to.
#[derive(Debug, Clone)]
pub struct HostInfo {
    pub hostname: String,
    pub port: u16,
    pub secure: bool,
}

/// The HTTP protocol for a server: `https` where it is secure, `http` otherwise.
pub open spec fn http_protocol(secure: bool) -> Seq<char> {
    if secure {
        "https"@
    } else {
        "http"@
    }
}

/// The websocket protocol for a server: `wss` where it is secure, `ws` otherwise.
pub open spec fn websocket_protocol(secure: bool) -> Seq<char> {
    if secure {
        "wss"@
    } else {
        "ws"@
    }
}

/// The authority of a server in a URI: `<hostname>:<port>`.
pub open spec fn authority(hostname: Seq<char>, port: u16) -> Seq<char> {
    hostname + ":"@ + decimal(port as nat)
}

impl HostInfo {
    /// The server at this hostname and port, secure or not.
    pub fn new(hostname: String, port: u16, secure: bool) -> (r: Self)
        ensures
            r.hostname == hostname,
            r.port == port,
            r.secure == secure,
    {
        HostInfo { hostname, port, secure }
    }

    /// The authority of the server in a URI: `<hostname>:<port>`.
    pub fn authority(&self) -> (r: String)
        ensures
            r@ == authority(self.hostname@, self.port),
    {
        let port = decimal_string(self.port as u64);
        String::from_str(self.hostname.as_str()).concat(":").concat(port.as_str())
    }

    /// The HTTP or HTTPS URI of a path on the server.
    pub fn http_uri(&self, url: &str) -> (r: Result<ParsedUrl, url::ParseError>)
        ensures
            r is Ok == url_parses(
                uri_text(http_protocol(self.secure), authority(self.hostname@, self.port), url@),
            ),
            r matches Ok(u) ==> u@ == url_serialization(
                uri_text(http_protocol(self.secure), authority(self.hostname@, self.port), url@),
            ),
    {
        let proto = if self.secure {
            "https"
        } else {
            "http"
        };
        let host = self.authority();
        uri(proto, host.as_str(), url)
    }

    /// The websocket URI of a path on the server.
    pub fn websocket_uri(&self, url: &str) -> (r: Result<ParsedUrl, url::ParseError>)
        ensures
            r is Ok == url_parses(
                uri_text(websocket_protocol(self.secure), authority(self.hostname@, self.port), url@),
            ),
            r matches Ok(u) ==> u@ == url_serialization(
                uri_text(websocket_protocol(self.secure), authority(self.hostname@, self.port), url@),
            ),
    {
        let proto = if self.secure {
            "wss"
        } else {
            "ws"
        };
        let host = self.authority();
        uri(proto, host.as_str(), url)
    }
}

impl Default for HostInfo {
    /// racetime.gg itself, over HTTPS on port 443.
    fn default() -> (r: Self)
        ensures
            r.hostname@ == RACETIME_HOST@,
            r.port == 443,
            r.secure,
    {
        HostInfo { hostname: String::from_str(RACETIME_HOST), port: 443, secure: true }
    }
}

/// The form that asks the server for an access token.
pub open spec fn authorization_form(client_id: Seq<char>, client_secret: Seq<char>) -> Seq<(Seq<char>, Seq<char>)> {
    seq![
        ("client_id"@, client_id),
        ("client_secret"@, client_secret),
        ("grant_type"@, "client_credentials"@),
    ]
}

/// The form that asks the server for an access token with these credentials.
pub fn authorize_form(client_id: &str, client_secret: &str) -> (r: Form)
    ensures
        form_view(r@) == authorization_form(client_id@, client_secret@),
{
    let mut form: Form = Vec::new();
    push_field(&mut form, "client_id", String::from_str(client_id));
    push_field(&mut form, "client_secret", String::from_str(client_secret));
    push_field(&mut form, "grant_type", String::from_str("client_credentials"));
    assert(form_view(form@) =~= authorization_form(client_id@, client_secret@));
    form
}

} // verus!
