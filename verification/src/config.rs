//! Endpoint configuration: the venue's base addresses and the tolerance
//! window for request timing. A configuration is made once and only read
//! afterwards.

use vstd::prelude::*;
use vstd::string::StringExecFns;

verus! {

/// The value of a [`Config`].
pub struct ConfigView {
    pub rest_api_endpoint: Seq<char>,
    pub ws_endpoint: Seq<char>,
    pub futures_rest_api_endpoint: Seq<char>,
    pub futures_ws_endpoint: Seq<char>,
    pub futures_ws_endpoint_coin_m: Seq<char>,
    pub futures_ws_endpoint_vanilla: Seq<char>,
    pub recv_window: u64,
}

impl ConfigView {
    /// The production venue.
    pub open spec fn production() -> ConfigView {
        ConfigView {
            rest_api_endpoint: "https://api.binance.com"@,
            ws_endpoint: "wss://stream.binance.com:9443/ws"@,
            futures_rest_api_endpoint: "https://fapi.binance.com"@,
            futures_ws_endpoint: "wss://fstream.binance.com"@,
            futures_ws_endpoint_coin_m: "wss://dstream.binance.com"@,
            futures_ws_endpoint_vanilla: "wss://vstream.binance.com"@,
            recv_window: 5000,
        }
    }

    /// The sandbox venue.
    pub open spec fn testnet() -> ConfigView {
        ConfigView {
            rest_api_endpoint: "https://testnet.binance.vision"@,
            ws_endpoint: "wss://testnet.binance.vision/ws"@,
            futures_rest_api_endpoint: "https://testnet.binancefuture.com"@,
            futures_ws_endpoint: "wss://stream.binancefuture.com"@,
            futures_ws_endpoint_coin_m: "wss://dstream.binancefuture.com"@,
            futures_ws_endpoint_vanilla: "wss://vstream.binancefuture.com"@,
            recv_window: 5000,
        }
    }
}

/// Base addresses of the venue and the tolerance window for request timing.
#[derive(Clone, Debug)]
pub struct Config {
    pub rest_api_endpoint: String,
    pub ws_endpoint: String,
    pub futures_rest_api_endpoint: String,
    pub futures_ws_endpoint: String,
    pub futures_ws_endpoint_coin_m: String,
    pub futures_ws_endpoint_vanilla: String,
    pub recv_window: u64,
}

impl View for Config {
    type V = ConfigView;

    open spec fn view(&self) -> ConfigView {
        ConfigView {
            rest_api_endpoint: self.rest_api_endpoint@,
            ws_endpoint: self.ws_endpoint@,
            futures_rest_api_endpoint: self.futures_rest_api_endpoint@,
            futures_ws_endpoint: self.futures_ws_endpoint@,
            futures_ws_endpoint_coin_m: self.futures_ws_endpoint_coin_m@,
            futures_ws_endpoint_vanilla: self.futures_ws_endpoint_vanilla@,
            recv_window: self.recv_window,
        }
    }
}

impl Default for Config {
    /// The production venue.
    fn default() -> (config: Config)
        ensures
            config@ == ConfigView::production(),
    {
        Config {
            rest_api_endpoint: String::from_str("https://api.binance.com"),
            ws_endpoint: String::from_str("wss://stream.binance.com:9443/ws"),
            futures_rest_api_endpoint: String::from_str("https://fapi.binance.com"),
            futures_ws_endpoint: String::from_str("wss://fstream.binance.com"),
            futures_ws_endpoint_coin_m: String::from_str("wss://dstream.binance.com"),
            futures_ws_endpoint_vanilla: String::from_str("wss://vstream.binance.com"),
            recv_window: 5000,
        }
    }
}

impl Config {
    /// The sandbox venue.
    pub fn testnet() -> (config: Config)
        ensures
            config@ == ConfigView::testnet(),
    {
        Config::default().set_rest_api_endpoint("https://testnet.binance.vision").set_ws_endpoint(
            "wss://testnet.binance.vision/ws",
        ).set_futures_rest_api_endpoint(
            "https://testnet.binancefuture.com",
        ).set_futures_ws_endpoint("wss://stream.binancefuture.com").set_futures_ws_endpoint_coin_m(
            "wss://dstream.binancefuture.com",
        ).set_futures_ws_endpoint_vanilla("wss://vstream.binancefuture.com")
    }

    /// This configuration with another base address for the spot REST API.
    pub fn set_rest_api_endpoint(self, rest_api_endpoint: &str) -> (config: Config)
        ensures
            config@ == (ConfigView { rest_api_endpoint: rest_api_endpoint@, ..self@ }),
    {
        let mut config = self;
        config.rest_api_endpoint = String::from_str(rest_api_endpoint);
        config
    }

    /// This configuration with another base address for the spot streams.
    pub fn set_ws_endpoint(self, ws_endpoint: &str) -> (config: Config)
        ensures
            config@ == (ConfigView { ws_endpoint: ws_endpoint@, ..self@ }),
    {
        let mut config = self;
        config.ws_endpoint = String::from_str(ws_endpoint);
        config
    }

    /// This configuration with another base address for the futures REST API.
    pub fn set_futures_rest_api_endpoint(self, futures_rest_api_endpoint: &str) -> (config: Config)
        ensures
            config@ == (ConfigView {
                futures_rest_api_endpoint: futures_rest_api_endpoint@,
                ..self@
            }),
    {
        let mut config = self;
        config.futures_rest_api_endpoint = String::from_str(futures_rest_api_endpoint);
        config
    }

    /// This configuration with another base address for the streams of the
    /// linear-margined segment.
    pub fn set_futures_ws_endpoint(self, futures_ws_endpoint: &str) -> (config: Config)
        ensures
            config@ == (ConfigView { futures_ws_endpoint: futures_ws_endpoint@, ..self@ }),
    {
        let mut config = self;
        config.futures_ws_endpoint = String::from_str(futures_ws_endpoint);
        config
    }

    /// This configuration with another base address for the streams of the
    /// inverse-margined segment.
    pub fn set_futures_ws_endpoint_coin_m(self, futures_ws_endpoint_coin_m: &str) -> (config:
        Config)
        ensures
            config@ == (ConfigView {
                futures_ws_endpoint_coin_m: futures_ws_endpoint_coin_m@,
                ..self@
            }),
    {
        let mut config = self;
        config.futures_ws_endpoint_coin_m = String::from_str(futures_ws_endpoint_coin_m);
        config
    }

    /// This configuration with another base address for the streams of the
    /// pre-launch segment.
    pub fn set_futures_ws_endpoint_vanilla(self, futures_ws_endpoint_vanilla: &str) -> (config:
        Config)
        ensures
            config@ == (ConfigView {
                futures_ws_endpoint_vanilla: futures_ws_endpoint_vanilla@,
                ..self@
            }),
    {
        let mut config = self;
        config.futures_ws_endpoint_vanilla = String::from_str(futures_ws_endpoint_vanilla);
        config
    }

    /// This configuration with another tolerance window, in milliseconds.
    pub fn set_recv_window(self, recv_window: u64) -> (config: Config)
        ensures
            config@ == (ConfigView { recv_window, ..self@ }),
    {
        let mut config = self;
        config.recv_window = recv_window;
        config
    }
}

} // verus!
