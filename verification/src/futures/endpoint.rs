//! The address that a subscription is dialled at.

use vstd::prelude::*;
use vstd::string::StringExecFns;
use crate::config::{Config, ConfigView};
use crate::errors::{fails, Error, ErrorKind};
use crate::futures::websockets::FuturesMarket;

verus! {

/// How the subscription is laid out in the address.
pub enum FuturesWebsocketAPI {
    /// One subscription: `<base>/ws/<subscription>`.
    Default,
    /// Several streams over one connection: `<base>/stream?streams=<subscription>`,
    /// the subscription being the stream names joined by `/`.
    MultiStream,
    /// A base address of the caller's own: `<custom>/<subscription>`. The
    /// configured base is not used.
    Custom(String),
}

/// The streaming base address of a market segment.
pub open spec fn base_of(market: FuturesMarket, config: ConfigView) -> Seq<char> {
    match market {
        FuturesMarket::USDM => config.futures_ws_endpoint,
        FuturesMarket::COINM => config.futures_ws_endpoint_coin_m,
        FuturesMarket::Vanilla => config.futures_ws_endpoint_vanilla,
    }
}

/// The stream names with a `/` between each two.
pub open spec fn joined(names: Seq<String>) -> Seq<char>
    decreases names.len(),
{
    if names.len() == 0 {
        Seq::empty()
    } else if names.len() == 1 {
        names[0]@
    } else {
        joined(names.drop_last()) + "/"@ + names.last()@
    }
}

/// Why the `url` crate rejects a text as an absolute URL: the message of its
/// error, or `None` where it accepts the text.
pub uninterp spec fn url_rejection(text: Seq<char>) -> Option<Seq<char>>;

/// `url::Url::parse`: parses `text` as an absolute URL. The outcome depends on
/// the text alone and is named [`url_rejection`]: `None` where the text
/// parses, else the text of the `ParseError`.
#[verifier::external_body]
pub(crate) fn reject_url(text: &str) -> (rejection: Option<String>)
    ensures
        match rejection {
            Some(message) => url_rejection(text@) == Some(message@),
            None => url_rejection(text@) is None,
        },
{
    match url::Url::parse(text) {
        Ok(_) => None,
        Err(e) => Some(e.to_string()),
    }
}

impl FuturesWebsocketAPI {
    /// The address for a subscription, as text.
    pub open spec fn endpoint(
        self,
        market: FuturesMarket,
        subscription: Seq<char>,
        config: ConfigView,
    ) -> Seq<char> {
        match self {
            FuturesWebsocketAPI::Default => base_of(market, config) + "/ws/"@ + subscription,
            FuturesWebsocketAPI::MultiStream => base_of(market, config) + "/stream?streams="@
                + subscription,
            FuturesWebsocketAPI::Custom(custom) => custom@ + "/"@ + subscription,
        }
    }

    /// Builds the address for a subscription. Nothing is checked: see [`resolve`].
    pub fn params(self, market: &FuturesMarket, subscription: &str, config: &Config) -> (url:
        String)
        ensures
            url@ == self.endpoint(*market, subscription@, config@),
    {
        let base = match market {
            FuturesMarket::USDM => config.futures_ws_endpoint.as_str(),
            FuturesMarket::COINM => config.futures_ws_endpoint_coin_m.as_str(),
            FuturesMarket::Vanilla => config.futures_ws_endpoint_vanilla.as_str(),
        };
        match self {
            FuturesWebsocketAPI::Default => String::from_str(base).concat("/ws/").concat(
                subscription,
            ),
            FuturesWebsocketAPI::MultiStream => String::from_str(base).concat(
                "/stream?streams=",
            ).concat(subscription),
            FuturesWebsocketAPI::Custom(custom) => custom.concat("/").concat(subscription),
        }
    }
}

/// Joins stream names into one subscription, with a `/` between each two.
pub fn join_streams(names: &[String]) -> (subscription: String)
    ensures
        subscription@ == joined(names@),
{
    let mut subscription = String::new();
    let mut i: usize = 0;
    while i < names.len()
        invariant
            i <= names.len(),
            subscription@ == joined(names@.take(i as int)),
        decreases names.len() - i,
    {
        proof {
            let before = names@.take(i as int);
            let after = names@.take(i + 1);
            assert(after.drop_last() =~= before);
            assert(after.last() == names@[i as int]);
        }
        if i > 0 {
            subscription.append("/");
        }
        subscription.append(names[i].as_str());
        i += 1;
    }
    assert(names@.take(names.len() as int) =~= names@);
    subscription
}

/// Admits an address that parsed, and turns a rejection into a `UrlError`
/// with the parser's message.
pub fn admit_url(url: String, rejection: Option<String>) -> (out: Result<String, Error>)
    ensures
        match rejection {
            None => out == Ok::<String, Error>(url),
            Some(message) => fails(out, ErrorKind::UrlError, message@),
        },
{
    match rejection {
        None => Ok(url),
        Some(message) => Err(Error::new(ErrorKind::UrlError, message.as_str())),
    }
}

/// True when `out` is what resolving gives for the address `url`: the
/// address itself where it is a well-formed URL, a `UrlError` with the
/// parser's message where it is not.
pub open spec fn resolved(url: Seq<char>, out: Result<String, Error>) -> bool {
    match url_rejection(url) {
        None => out matches Ok(address) && address@ == url,
        Some(message) => fails(out, ErrorKind::UrlError, message),
    }
}

/// Resolves a subscription to the address to dial, and fails with a
/// `UrlError` where that address is malformed.
pub fn resolve(
    mode: FuturesWebsocketAPI,
    market: &FuturesMarket,
    subscription: &str,
    config: &Config,
) -> (out: Result<String, Error>)
    ensures
        resolved(mode.endpoint(*market, subscription@, config@), out),
{
    let url = mode.params(market, subscription, config);
    let rejection = reject_url(url.as_str());
    admit_url(url, rejection)
}

} // verus!
