use binance_ws::errors::ErrorKind;
use binance_ws::futures::decode::{classify, decode, strip_envelope};
use binance_ws::futures::shapes::EventKind;
use binance_ws::futures::websockets::FuturesWebsocketEvent;
use binance_ws::json::Json;

const DAY_TICKER: &str = r#"{"e":"24hrTicker","E":123456789,"s":"BTCUSDT","p":"0.0015","P":"250.00","w":"0.0018","c":"0.0025","Q":"10","o":"0.0010","h":"0.0025","l":"0.0010","v":"10000","q":"18","O":0,"C":86400000,"F":0,"L":18150,"n":18151}"#;
const BOOK_TICKER: &str = r#"{"u":400900217,"s":"BNBUSDT","b":"25.35190000","B":"31.21000000","a":"25.36520000","A":"40.66000000"}"#;
const MINI_TICKER: &str = r#"{"e":"24hrMiniTicker","E":123456789,"s":"BTCUSDT","c":"0.0025","o":"0.0010","h":"0.0025","l":"0.0010","v":"10000","q":"18"}"#;
const ACCOUNT_UPDATE: &str = r#"{"e":"ACCOUNT_UPDATE","E":1564745798939,"T":1564745798938,"a":{"m":"ORDER","B":[{"a":"USDT","wb":"122624.12345678","cw":"100.12345678","bc":"50.12345678"}],"P":[{"s":"BTCUSDT","pa":"0","ep":"0.00000","cr":"200","up":"0","mt":"isolated","iw":"0.00000000","ps":"BOTH"}]}}"#;
const ORDER_TRADE: &str = r#"{"e":"ORDER_TRADE_UPDATE","E":1568879465651,"T":1568879465650,"o":{"s":"BTCUSDT","c":"TEST","S":"SELL","o":"TRAILING_STOP_MARKET","f":"GTC","q":"0.001","p":"0","ap":"0","sp":"7103.04","x":"NEW","X":"NEW","i":8886774,"l":"0","z":"0","L":"0","N":"USDT","n":"0","T":1568879465650,"t":0,"b":"0","a":"9.91","m":false,"R":false,"wt":"CONTRACT_PRICE","ot":"TRAILING_STOP_MARKET","ps":"LONG","cp":false,"AP":"7476.89","cr":"5.0","rp":"0"}}"#;
const AGGR_TRADES: &str = r#"{"e":"aggTrade","E":123456789,"s":"BTCUSDT","a":5933014,"p":"0.001","q":"100","f":100,"l":105,"T":123456785,"m":true}"#;
const INDEX_PRICE: &str = r#"{"e":"indexPriceUpdate","E":1591261236000,"i":"BTCUSD","p":"9636.57860000"}"#;
const MARK_PRICE: &str = r#"{"e":"markPriceUpdate","E":1562305380000,"s":"BTCUSDT","p":"11794.15000000","r":"0.00038167","T":1562306400000}"#;
const TRADE: &str = r#"{"e":"trade","E":123456789,"s":"BTCUSDT","t":12345,"p":"0.001","q":"100","b":88,"a":50,"T":123456785,"m":true}"#;
const CONTINUOUS_KLINE: &str = r#"{"e":"continuous_kline","E":1607443058651,"ps":"BTCUSDT","ct":"PERPETUAL","k":{"t":1607443020000,"T":1607443079999,"i":"1m","f":116467658886,"L":116468012423,"o":"18787.00","c":"18804.04","h":"18804.04","l":"18786.54","v":"197.664","n":543,"x":false,"q":"3715253.19494","V":"184.769","Q":"3472925.84746","B":"0"}}"#;
const INDEX_KLINE: &str = r#"{"e":"indexPrice_kline","E":1591267070033,"ps":"BTCUSD","k":{"t":1591267020000,"T":1591267079999,"s":"0","i":"1m","f":1591267020000,"L":1591267070000,"o":"9542.21900000","c":"9542.50440000","h":"9542.71640000","l":"9542.21040000","v":"0","n":6,"x":false,"q":"0","V":"0","Q":"0","B":"0"}}"#;
const LIQUIDATION: &str = r#"{"e":"forceOrder","E":1568014460893,"o":{"s":"BTCUSDT","S":"SELL","o":"LIMIT","f":"IOC","q":"0.014","p":"9910","ap":"9910","X":"FILLED","l":"0.014","z":"0.014","T":1568014460893}}"#;
const KLINE: &str = r#"{"e":"kline","E":123456789,"s":"BTCUSDT","k":{"t":123400000,"T":123460000,"s":"BTCUSDT","i":"1m","f":100,"L":200,"o":"0.0010","c":"0.0020","h":"0.0025","l":"0.0015","v":"1000","n":100,"x":false,"q":"1.0000","V":"500","Q":"0.500","B":"123456"}}"#;
const ORDER_BOOK: &str = r#"{"lastUpdateId":1027024,"bids":[["4.00000000","431.00000000"]],"asks":[["4.00000200","12.00000000"]]}"#;
const DEPTH_ORDER_BOOK: &str = r#"{"e":"depthUpdate","E":123456789,"T":123456788,"s":"BTCUSDT","U":157,"u":160,"pu":149,"b":[["0.0024","10"]],"a":[["0.0026","100"]]}"#;
const USER_DATA_STREAM_EXPIRED: &str = r#"{"e":"listenKeyExpired","E":1576653824250}"#;

fn event_of(text: &str) -> FuturesWebsocketEvent {
    decode(text).unwrap().unwrap()
}

fn text_at<'a>(document: &'a Json, key: &str) -> &'a str {
    document.get(key).unwrap().as_text().unwrap()
}

fn number_at(document: &Json, key: &str) -> u64 {
    document.get(key).unwrap().as_u64().unwrap()
}

#[test]
fn day_ticker_all_shape() {
    let text = format!("[{},{}]", DAY_TICKER, DAY_TICKER.replace("BTCUSDT", "ETHUSDT"));
    match event_of(&text) {
        FuturesWebsocketEvent::DayTickerAll(tickers) => {
            assert_eq!(tickers.len(), 2);
            assert_eq!(text_at(&tickers[0], "s"), "BTCUSDT");
            assert_eq!(text_at(&tickers[1], "s"), "ETHUSDT");
            assert_eq!(number_at(&tickers[1], "n"), 18151);
        },
        other => panic!("{:?}", other),
    }
}

#[test]
fn day_ticker_shape() {
    match event_of(DAY_TICKER) {
        FuturesWebsocketEvent::DayTicker(ticker) => {
            assert_eq!(text_at(&ticker, "e"), "24hrTicker");
            assert_eq!(number_at(&ticker, "E"), 123456789);
            assert_eq!(text_at(&ticker, "P"), "250.00");
            assert_eq!(ticker.get("L").unwrap().as_i64(), Some(18150));
        },
        other => panic!("{:?}", other),
    }
}

#[test]
fn book_ticker_shape() {
    match event_of(BOOK_TICKER) {
        FuturesWebsocketEvent::BookTicker(ticker) => {
            assert_eq!(number_at(&ticker, "u"), 400900217);
            assert_eq!(text_at(&ticker, "b"), "25.35190000");
            assert_eq!(text_at(&ticker, "A"), "40.66000000");
        },
        other => panic!("{:?}", other),
    }
}

#[test]
fn mini_ticker_shape() {
    match event_of(MINI_TICKER) {
        FuturesWebsocketEvent::MiniTicker(ticker) => {
            assert_eq!(text_at(&ticker, "s"), "BTCUSDT");
            assert_eq!(text_at(&ticker, "c"), "0.0025");
        },
        other => panic!("{:?}", other),
    }
}

#[test]
fn mini_ticker_all_shape() {
    let text = format!("[{}]", MINI_TICKER);
    match event_of(&text) {
        FuturesWebsocketEvent::MiniTickerAll(tickers) => {
            assert_eq!(tickers.len(), 1);
            assert_eq!(text_at(&tickers[0], "q"), "18");
        },
        other => panic!("{:?}", other),
    }
}

#[test]
fn account_update_shape() {
    match event_of(ACCOUNT_UPDATE) {
        FuturesWebsocketEvent::AccountUpdate(update) => {
            let data = update.get("a").unwrap();
            assert_eq!(text_at(data, "m"), "ORDER");
            let balances = data.get("B").unwrap().as_array().unwrap();
            assert_eq!(text_at(&balances[0], "wb"), "122624.12345678");
            let positions = data.get("P").unwrap().as_array().unwrap();
            assert_eq!(text_at(&positions[0], "mt"), "isolated");
        },
        other => panic!("{:?}", other),
    }
}

#[test]
fn order_trade_shape() {
    match event_of(ORDER_TRADE) {
        FuturesWebsocketEvent::OrderTrade(update) => {
            assert_eq!(number_at(&update, "T"), 1568879465650);
            let order = update.get("o").unwrap();
            assert_eq!(number_at(order, "i"), 8886774);
            assert_eq!(text_at(order, "sp"), "7103.04");
            assert_eq!(order.get("R").unwrap().as_bool(), Some(false));
        },
        other => panic!("{:?}", other),
    }
}

#[test]
fn aggr_trades_shape() {
    match event_of(AGGR_TRADES) {
        FuturesWebsocketEvent::AggrTrades(trade) => {
            assert_eq!(number_at(&trade, "a"), 5933014);
            assert_eq!(number_at(&trade, "l"), 105);
            assert_eq!(trade.get("m").unwrap().as_bool(), Some(true));
        },
        other => panic!("{:?}", other),
    }
}

#[test]
fn index_price_shape() {
    match event_of(INDEX_PRICE) {
        FuturesWebsocketEvent::IndexPrice(price) => {
            assert_eq!(text_at(&price, "i"), "BTCUSD");
            assert_eq!(text_at(&price, "p"), "9636.57860000");
        },
        other => panic!("{:?}", other),
    }
}

#[test]
fn mark_price_shape() {
    match event_of(MARK_PRICE) {
        FuturesWebsocketEvent::MarkPrice(price) => {
            assert_eq!(text_at(&price, "r"), "0.00038167");
            assert_eq!(number_at(&price, "T"), 1562306400000);
        },
        other => panic!("{:?}", other),
    }
}

#[test]
fn mark_price_all_shape() {
    let text = format!("[{},{},{}]", MARK_PRICE, MARK_PRICE, MARK_PRICE);
    match event_of(&text) {
        FuturesWebsocketEvent::MarkPriceAll(prices) => {
            assert_eq!(prices.len(), 3);
            assert_eq!(text_at(&prices[2], "p"), "11794.15000000");
        },
        other => panic!("{:?}", other),
    }
}

#[test]
fn trade_shape() {
    match event_of(TRADE) {
        FuturesWebsocketEvent::Trade(trade) => {
            assert_eq!(number_at(&trade, "t"), 12345);
            assert_eq!(number_at(&trade, "b"), 88);
            assert_eq!(text_at(&trade, "q"), "100");
        },
        other => panic!("{:?}", other),
    }
}

#[test]
fn continuous_kline_shape() {
    match event_of(CONTINUOUS_KLINE) {
        FuturesWebsocketEvent::ContinuousKline(kline) => {
            assert_eq!(text_at(&kline, "ct"), "PERPETUAL");
            assert_eq!(number_at(kline.get("k").unwrap(), "n"), 543);
        },
        other => panic!("{:?}", other),
    }
}

#[test]
fn index_kline_shape() {
    match event_of(INDEX_KLINE) {
        FuturesWebsocketEvent::IndexKline(kline) => {
            assert_eq!(text_at(&kline, "ps"), "BTCUSD");
            assert_eq!(text_at(kline.get("k").unwrap(), "c"), "9542.50440000");
        },
        other => panic!("{:?}", other),
    }
}

#[test]
fn liquidation_shape() {
    match event_of(LIQUIDATION) {
        FuturesWebsocketEvent::Liquidation(liquidation) => {
            let order = liquidation.get("o").unwrap();
            assert_eq!(text_at(order, "X"), "FILLED");
            assert_eq!(number_at(order, "T"), 1568014460893);
        },
        other => panic!("{:?}", other),
    }
}

#[test]
fn kline_shape() {
    match event_of(KLINE) {
        FuturesWebsocketEvent::Kline(kline) => {
            assert_eq!(text_at(&kline, "s"), "BTCUSDT");
            let candle = kline.get("k").unwrap();
            assert_eq!(text_at(candle, "i"), "1m");
            assert_eq!(candle.get("x").unwrap().as_bool(), Some(false));
        },
        other => panic!("{:?}", other),
    }
}

#[test]
fn order_book_shape() {
    match event_of(ORDER_BOOK) {
        FuturesWebsocketEvent::OrderBook(book) => {
            assert_eq!(number_at(&book, "lastUpdateId"), 1027024);
            let bids = book.get("bids").unwrap().as_array().unwrap();
            let level = bids[0].as_array().unwrap();
            assert_eq!(level[0].as_text(), Some("4.00000000"));
            assert_eq!(level[1].as_text(), Some("431.00000000"));
        },
        other => panic!("{:?}", other),
    }
}

#[test]
fn depth_order_book_shape() {
    match event_of(DEPTH_ORDER_BOOK) {
        FuturesWebsocketEvent::DepthOrderBook(depth) => {
            assert_eq!(number_at(&depth, "U"), 157);
            assert_eq!(number_at(&depth, "pu"), 149);
            let asks = depth.get("a").unwrap().as_array().unwrap();
            assert_eq!(asks[0].as_array().unwrap()[1].as_text(), Some("100"));
        },
        other => panic!("{:?}", other),
    }
}

#[test]
fn user_data_stream_expired_shape() {
    match event_of(USER_DATA_STREAM_EXPIRED) {
        FuturesWebsocketEvent::UserDataStreamExpiredEvent(notice) => {
            assert_eq!(text_at(&notice, "e"), "listenKeyExpired");
            assert_eq!(number_at(&notice, "E"), 1576653824250);
        },
        other => panic!("{:?}", other),
    }
}

#[test]
fn every_sample_has_its_kind() {
    let samples: Vec<(String, EventKind)> = vec![
        (format!("[{}]", DAY_TICKER), EventKind::DayTickerAll),
        (DAY_TICKER.to_string(), EventKind::DayTicker),
        (BOOK_TICKER.to_string(), EventKind::BookTicker),
        (MINI_TICKER.to_string(), EventKind::MiniTicker),
        (format!("[{}]", MINI_TICKER), EventKind::MiniTickerAll),
        (ACCOUNT_UPDATE.to_string(), EventKind::AccountUpdate),
        (ORDER_TRADE.to_string(), EventKind::OrderTrade),
        (AGGR_TRADES.to_string(), EventKind::AggrTrades),
        (INDEX_PRICE.to_string(), EventKind::IndexPrice),
        (MARK_PRICE.to_string(), EventKind::MarkPrice),
        (format!("[{}]", MARK_PRICE), EventKind::MarkPriceAll),
        (TRADE.to_string(), EventKind::Trade),
        (CONTINUOUS_KLINE.to_string(), EventKind::ContinuousKline),
        (INDEX_KLINE.to_string(), EventKind::IndexKline),
        (LIQUIDATION.to_string(), EventKind::Liquidation),
        (KLINE.to_string(), EventKind::Kline),
        (ORDER_BOOK.to_string(), EventKind::OrderBook),
        (DEPTH_ORDER_BOOK.to_string(), EventKind::DepthOrderBook),
        (USER_DATA_STREAM_EXPIRED.to_string(), EventKind::UserDataStreamExpiredEvent),
    ];
    for (rank, (text, kind)) in samples.iter().enumerate() {
        assert_eq!(event_of(text).kind(), *kind);
        assert_eq!(EventKind::from_rank(rank), Some(*kind));
        let document = Json::parse(text).unwrap();
        assert!(document.conforms(&kind.pattern()));
    }
    assert_eq!(EventKind::from_rank(19), None);
}

#[test]
fn an_enveloped_ticker_array_is_a_batch() {
    let text = format!(r#"{{"stream":"x","data":[{}]}}"#, DAY_TICKER);
    match event_of(&text) {
        FuturesWebsocketEvent::DayTickerAll(tickers) => {
            assert_eq!(tickers.len(), 1);
            assert_eq!(text_at(&tickers[0], "s"), "BTCUSDT");
        },
        other => panic!("{:?}", other),
    }
}

#[test]
fn an_enveloped_event_is_the_event_inside() {
    let text = format!(r#"{{"stream":"btcusdt@trade","data":{}}}"#, TRADE);
    assert_eq!(event_of(&text).kind(), EventKind::Trade);
    let twice = format!(r#"{{"data":{{"stream":"inner","data":{}}}}}"#, KLINE);
    assert_eq!(event_of(&twice).kind(), EventKind::Kline);
}

#[test]
fn stripping_leaves_a_bare_document_as_it_is() {
    let bare = Json::parse(TRADE).unwrap();
    let stripped = strip_envelope(bare.clone());
    assert_eq!(format!("{:?}", stripped), format!("{:?}", bare));
    let array = Json::parse("[1,2]").unwrap();
    assert_eq!(format!("{:?}", strip_envelope(array.clone())), format!("{:?}", array));
}

#[test]
fn stripping_unwraps_and_drops_the_stream_name() {
    let wrapped = Json::parse(r#"{"stream":"x","data":{"foo":"bar"}}"#).unwrap();
    let stripped = strip_envelope(wrapped);
    assert_eq!(stripped.get("foo").unwrap().as_text(), Some("bar"));
    assert!(stripped.get("stream").is_none());
    let scalar = strip_envelope(Json::parse(r#"{"data":5}"#).unwrap());
    assert_eq!(scalar.as_u64(), Some(5));
}

#[test]
fn the_earlier_shape_wins() {
    // A day ticker has every member of a mini ticker.
    assert_eq!(event_of(DAY_TICKER).kind(), EventKind::DayTicker);
    // A mark price that carries an index price has the shape of an index price.
    let both = MARK_PRICE.replace(r#""p":"#, r#""i":"11784.62659091","p":"#);
    assert_eq!(event_of(&both).kind(), EventKind::IndexPrice);
    // A continuous kline has every member of an index kline.
    let index = CONTINUOUS_KLINE.replace(r#""ct":"PERPETUAL","#, "");
    assert_eq!(event_of(CONTINUOUS_KLINE).kind(), EventKind::ContinuousKline);
    assert_eq!(event_of(&index).kind(), EventKind::IndexKline);
    // An empty array is a batch of the first kind.
    match event_of("[]") {
        FuturesWebsocketEvent::DayTickerAll(tickers) => assert!(tickers.is_empty()),
        other => panic!("{:?}", other),
    }
}

#[test]
fn a_ticker_array_is_never_a_single_ticker() {
    let text = format!("[{}]", MINI_TICKER);
    let document = Json::parse(&text).unwrap();
    assert!(!document.conforms(&EventKind::MiniTicker.pattern()));
    assert!(!document.conforms(&EventKind::DayTickerAll.pattern()));
    assert!(document.conforms(&EventKind::MiniTickerAll.pattern()));
    assert_eq!(classify(document).unwrap().kind(), EventKind::MiniTickerAll);
}

#[test]
fn an_unknown_shape_is_no_event() {
    assert!(decode(r#"{"foo":"bar"}"#).unwrap().is_none());
    assert!(decode(r#"{"e":"x"}"#).unwrap().is_none());
    assert!(decode(r#"{"e":"x","E":"not a number"}"#).unwrap().is_none());
    assert!(decode("17").unwrap().is_none());
    assert!(decode("[1]").unwrap().is_none());
    assert!(decode(r#"{"stream":"x","data":{"foo":"bar"}}"#).unwrap().is_none());
    assert!(classify(Json::Null).is_none());
}

#[test]
fn text_that_is_no_json_is_a_decode_error() {
    let failure = decode("not json").unwrap_err();
    assert_eq!(failure.kind, ErrorKind::DecodeError);
    assert_eq!(failure.message, "expected ident at line 1 column 2");
}

#[test]
fn a_wrong_member_type_changes_the_kind() {
    // With a trade id that is no number the frame is no trade; it still has
    // the members of the expiry notice, which is tried last.
    let text = TRADE.replace(r#""t":12345"#, r#""t":"12345""#);
    assert_eq!(event_of(&text).kind(), EventKind::UserDataStreamExpiredEvent);
}
