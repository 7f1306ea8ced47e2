//! The request that opens the connection.

use crate::config::Config;
use vstd::prelude::*;
use vstd::string::*;

verus! {

/// Where the feed is served.
pub const FEED_URL: &'static str = "wss://router.csgoroll.com/ws";

/// The subprotocol the feed speaks.
pub const SUBPROTOCOL: &'static str = "graphql-transport-ws";

/// The origin the request claims.
pub const ORIGIN: &'static str = "https://www.csgoroll.com";

/// The user agent the request claims.
pub const USER_AGENT: &'static str =
    "Mozilla/5.0 (Windows NT 10.0; Win64; x64) AppleWebKit/537.36 (KHTML, like Gecko) Chrome/133.0.0.0 Safari/537.36";

/// The mathematical value of a [`Header`].
pub struct HeaderView {
    pub name: Seq<char>,
    pub value: Seq<char>,
}

/// One header of the upgrade request.
#[derive(Clone, Debug, PartialEq, Eq)]
pub struct Header {
    pub name: String,
    pub value: String,
}

impl View for Header {
    type V = HeaderView;

    open spec fn view(&self) -> HeaderView {
        HeaderView { name: self.name@, value: self.value@ }
    }
}

/// The mathematical value of an [`UpgradeRequest`].
pub struct UpgradeRequestView {
    pub url: Seq<char>,
    pub headers: Seq<HeaderView>,
}

/// The upgrade request of one connection attempt.
#[derive(Clone, Debug, PartialEq, Eq)]
pub struct UpgradeRequest {
    pub url: String,
    /// The headers to set besides those of the handshake itself, in order.
    pub headers: Vec<Header>,
}

impl View for UpgradeRequest {
    type V = UpgradeRequestView;

    open spec fn view(&self) -> UpgradeRequestView {
        UpgradeRequestView {
            url: self.url@,
            headers: Seq::new(self.headers@.len(), |i: int| self.headers@[i]@),
        }
    }
}

/// The request of a client whose session cookie is `cookie`.
pub open spec fn request_with(cookie: Seq<char>) -> UpgradeRequestView {
    UpgradeRequestView {
        url: FEED_URL@,
        headers: seq![
            HeaderView { name: "Sec-WebSocket-Protocol"@, value: SUBPROTOCOL@ },
            HeaderView { name: "Origin"@, value: ORIGIN@ },
            HeaderView { name: "Cookie"@, value: cookie },
            HeaderView { name: "User-Agent"@, value: USER_AGENT@ },
        ],
    }
}

fn header(name: &str, value: &str) -> (header: Header)
    ensures
        header@ == (HeaderView { name: name@, value: value@ }),
{
    Header { name: String::from_str(name), value: String::from_str(value) }
}

/// The request that opens a connection for `config`: the feed's address,
/// and the subprotocol, the origin, the session cookie and the user agent as
/// headers.
pub fn upgrade_request(config: &Config) -> (request: UpgradeRequest)
    ensures
        request@ == request_with(config@.csgoroll_session),
{
    let mut headers: Vec<Header> = Vec::new();
    headers.push(header("Sec-WebSocket-Protocol", SUBPROTOCOL));
    headers.push(header("Origin", ORIGIN));
    headers.push(header("Cookie", config.csgoroll_session.as_str()));
    headers.push(header("User-Agent", USER_AGENT));
    let request = UpgradeRequest { url: String::from_str(FEED_URL), headers };
    assert(request@.headers =~= request_with(config@.csgoroll_session).headers);
    request
}

} // verus!
