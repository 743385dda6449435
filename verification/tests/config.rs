use binance_ws::config::Config;

#[test]
fn default_is_the_production_venue() {
    let config = Config::default();
    assert_eq!(config.rest_api_endpoint, "https://api.binance.com");
    assert_eq!(config.ws_endpoint, "wss://stream.binance.com:9443/ws");
    assert_eq!(config.futures_rest_api_endpoint, "https://fapi.binance.com");
    assert_eq!(config.futures_ws_endpoint, "wss://fstream.binance.com");
    assert_eq!(config.futures_ws_endpoint_coin_m, "wss://dstream.binance.com");
    assert_eq!(config.futures_ws_endpoint_vanilla, "wss://vstream.binance.com");
    assert_eq!(config.recv_window, 5000);
}

#[test]
fn testnet_is_the_sandbox_venue() {
    let config = Config::testnet();
    assert_eq!(config.rest_api_endpoint, "https://testnet.binance.vision");
    assert_eq!(config.ws_endpoint, "wss://testnet.binance.vision/ws");
    assert_eq!(config.futures_rest_api_endpoint, "https://testnet.binancefuture.com");
    assert_eq!(config.futures_ws_endpoint, "wss://stream.binancefuture.com");
    assert_eq!(config.futures_ws_endpoint_coin_m, "wss://dstream.binancefuture.com");
    assert_eq!(config.futures_ws_endpoint_vanilla, "wss://vstream.binancefuture.com");
    assert_eq!(config.recv_window, 5000);
}

#[test]
fn each_setter_changes_its_own_field_only() {
    let config = Config::default().set_rest_api_endpoint("https://rest.example");
    assert_eq!(config.rest_api_endpoint, "https://rest.example");
    assert_eq!(config.ws_endpoint, "wss://stream.binance.com:9443/ws");

    let config = Config::default().set_ws_endpoint("wss://ws.example");
    assert_eq!(config.ws_endpoint, "wss://ws.example");
    assert_eq!(config.rest_api_endpoint, "https://api.binance.com");

    let config = Config::default().set_futures_rest_api_endpoint("https://frest.example");
    assert_eq!(config.futures_rest_api_endpoint, "https://frest.example");
    assert_eq!(config.futures_ws_endpoint, "wss://fstream.binance.com");

    let config = Config::default().set_futures_ws_endpoint("wss://f.example");
    assert_eq!(config.futures_ws_endpoint, "wss://f.example");
    assert_eq!(config.futures_ws_endpoint_coin_m, "wss://dstream.binance.com");

    let config = Config::default().set_futures_ws_endpoint_coin_m("wss://d.example");
    assert_eq!(config.futures_ws_endpoint_coin_m, "wss://d.example");
    assert_eq!(config.futures_ws_endpoint_vanilla, "wss://vstream.binance.com");

    let config = Config::default().set_futures_ws_endpoint_vanilla("wss://v.example");
    assert_eq!(config.futures_ws_endpoint_vanilla, "wss://v.example");
    assert_eq!(config.futures_ws_endpoint, "wss://fstream.binance.com");

    let config = Config::default().set_recv_window(250);
    assert_eq!(config.recv_window, 250);
    assert_eq!(config.rest_api_endpoint, "https://api.binance.com");
}

#[test]
fn setters_chain() {
    let config = Config::testnet().set_recv_window(1).set_futures_ws_endpoint("wss://x.example");
    assert_eq!(config.recv_window, 1);
    assert_eq!(config.futures_ws_endpoint, "wss://x.example");
    assert_eq!(config.futures_ws_endpoint_coin_m, "wss://dstream.binancefuture.com");
}
