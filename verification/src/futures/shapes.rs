//! The wire shapes of the futures streams, and the order in which a frame is
//! held against them.
//!
//! A frame carries no tag that says what it is. It is recognised by its
//! structure, and since the shapes overlap, the first shape that fits in the
//! order of [`EventKind`] decides.

use vstd::prelude::*;
use crate::schema::{Fields, FieldsView, Pattern, PatternView};

verus! {

/// The events of the futures streams, in the order in which their shapes are tried.
#[derive(Clone, Copy, Debug, PartialEq, Eq, Structural)]
pub enum EventKind {
    /// 24-hour statistics of every symbol, as one array.
    DayTickerAll,
    /// 24-hour statistics of one symbol.
    DayTicker,
    /// Best bid and ask of one symbol.
    BookTicker,
    /// Condensed 24-hour statistics of one symbol.
    MiniTicker,
    /// Condensed 24-hour statistics of every symbol, as one array.
    MiniTickerAll,
    /// Balances and positions after a change to the account.
    AccountUpdate,
    /// An order of the account was created, filled or changed.
    OrderTrade,
    /// Trades at one price by one taker, taken together.
    AggrTrades,
    /// The index price of a pair.
    IndexPrice,
    /// Mark price and funding rate of one symbol.
    MarkPrice,
    /// Mark price and funding rate of every symbol, as one array.
    MarkPriceAll,
    /// One trade.
    Trade,
    /// A candlestick of a continuous contract.
    ContinuousKline,
    /// A candlestick of an index price.
    IndexKline,
    /// A forced liquidation order.
    Liquidation,
    /// A candlestick of one symbol.
    Kline,
    /// A snapshot of the order book.
    OrderBook,
    /// Changes to the order book since the last update.
    DepthOrderBook,
    /// The key of the user data stream has expired.
    UserDataStreamExpiredEvent,
}

/// The number of event kinds.
pub const KINDS: usize = 19;

/// 24-hour statistics of one symbol.
pub open spec fn day_ticker() -> PatternView {
    FieldsView::none().text("e").unsigned("E").text("s").text("p").text("P").text("w").text("c")
        .text("Q").text("o").text("h").text("l").text("v").text("q").unsigned("O").unsigned("C")
        .integer("F").integer("L").unsigned("n").record()
}

/// Best bid and ask of one symbol.
pub open spec fn book_ticker() -> PatternView {
    FieldsView::none().unsigned("u").text("s").text("b").text("B").text("a").text("A").record()
}

/// Condensed 24-hour statistics of one symbol.
pub open spec fn mini_ticker() -> PatternView {
    FieldsView::none().text("e").unsigned("E").text("s").text("c").text("o").text("h").text("l")
        .text("v").text("q").record()
}

/// One balance of an account update.
pub open spec fn balance() -> PatternView {
    FieldsView::none().text("a").text("wb").text("cw").record()
}

/// One position of an account update.
pub open spec fn position() -> PatternView {
    FieldsView::none().text("s").text("pa").text("ep").text("up").text("mt").text("iw").text("ps")
        .record()
}

/// What an account update says of the account.
pub open spec fn account_data() -> PatternView {
    FieldsView::none().text("m").required("B", PatternView::list_of(balance()))
        .required("P", PatternView::list_of(position())).record()
}

/// Balances and positions after a change to the account.
pub open spec fn account_update() -> PatternView {
    FieldsView::none().text("e").unsigned("E").required("a", account_data()).record()
}

/// The order inside an order update.
pub open spec fn order() -> PatternView {
    FieldsView::none().text("s").text("c").text("S").text("o").text("f").text("q").text("p")
        .text("ap").text("sp").text("x").text("X").unsigned("i").text("l").text("z").text("L")
        .optional("N", PatternView::Text).optional("n", PatternView::Text).unsigned("T")
        .integer("t").text("b").text("a").flag("m").flag("R").text("wt").text("ot").text("ps")
        .optional("cp", PatternView::Flag).optional("AP", PatternView::Text)
        .optional("cr", PatternView::Text).text("rp").record()
}

/// An order of the account was created, filled or changed.
pub open spec fn order_trade() -> PatternView {
    FieldsView::none().text("e").unsigned("E").unsigned("T").required("o", order()).record()
}

/// Trades at one price by one taker, taken together.
pub open spec fn aggr_trades() -> PatternView {
    FieldsView::none().text("e").unsigned("E").text("s").unsigned("a").text("p").text("q")
        .unsigned("f").unsigned("l").unsigned("T").flag("m").record()
}

/// The index price of a pair.
pub open spec fn index_price() -> PatternView {
    FieldsView::none().text("e").unsigned("E").text("i").text("p").record()
}

/// Mark price and funding rate of one symbol.
pub open spec fn mark_price() -> PatternView {
    FieldsView::none().text("e").unsigned("E").text("s").text("p").optional("i", PatternView::Text)
        .text("r").unsigned("T").record()
}

/// One trade.
pub open spec fn trade() -> PatternView {
    FieldsView::none().text("e").unsigned("E").text("s").unsigned("t").text("p").text("q")
        .unsigned("b").unsigned("a").unsigned("T").flag("m").record()
}

/// The candlestick inside a kline event.
pub open spec fn candle() -> PatternView {
    FieldsView::none().unsigned("t").unsigned("T").text("i").integer("f").integer("L").text("o")
        .text("c").text("h").text("l").text("v").unsigned("n").flag("x").text("q").text("V")
        .text("Q").record()
}

/// A candlestick of a continuous contract.
pub open spec fn continuous_kline() -> PatternView {
    FieldsView::none().text("e").unsigned("E").text("ps").text("ct").required("k", candle())
        .record()
}

/// A candlestick of an index price.
pub open spec fn index_kline() -> PatternView {
    FieldsView::none().text("e").unsigned("E").text("ps").required("k", candle()).record()
}

/// The order inside a liquidation event.
pub open spec fn liquidation_order() -> PatternView {
    FieldsView::none().text("s").text("S").text("o").text("f").text("q").text("p").text("ap")
        .text("X").text("l").text("z").unsigned("T").record()
}

/// A forced liquidation order.
pub open spec fn liquidation() -> PatternView {
    FieldsView::none().text("e").unsigned("E").required("o", liquidation_order()).record()
}

/// A candlestick of one symbol.
pub open spec fn kline() -> PatternView {
    FieldsView::none().text("e").unsigned("E").text("s").required("k", candle()).record()
}

/// A snapshot of the order book.
pub open spec fn order_book() -> PatternView {
    FieldsView::none().unsigned("lastUpdateId")
        .required("bids", PatternView::list_of(PatternView::decimal_pair()))
        .required("asks", PatternView::list_of(PatternView::decimal_pair())).record()
}

/// Changes to the order book since the last update.
pub open spec fn depth_order_book() -> PatternView {
    FieldsView::none().text("e").unsigned("E").text("s").unsigned("U").unsigned("u")
        .optional("pu", PatternView::Unsigned)
        .required("b", PatternView::list_of(PatternView::decimal_pair()))
        .required("a", PatternView::list_of(PatternView::decimal_pair())).record()
}

/// The key of the user data stream has expired.
pub open spec fn user_data_stream_expired() -> PatternView {
    FieldsView::none().text("e").unsigned("E").record()
}

impl EventKind {
    /// The place of this kind in the order of precedence, from 0.
    pub open spec fn rank(self) -> int {
        match self {
            EventKind::DayTickerAll => 0,
            EventKind::DayTicker => 1,
            EventKind::BookTicker => 2,
            EventKind::MiniTicker => 3,
            EventKind::MiniTickerAll => 4,
            EventKind::AccountUpdate => 5,
            EventKind::OrderTrade => 6,
            EventKind::AggrTrades => 7,
            EventKind::IndexPrice => 8,
            EventKind::MarkPrice => 9,
            EventKind::MarkPriceAll => 10,
            EventKind::Trade => 11,
            EventKind::ContinuousKline => 12,
            EventKind::IndexKline => 13,
            EventKind::Liquidation => 14,
            EventKind::Kline => 15,
            EventKind::OrderBook => 16,
            EventKind::DepthOrderBook => 17,
            EventKind::UserDataStreamExpiredEvent => 18,
        }
    }

    /// The kind that is tried at the given place.
    pub open spec fn at(rank: int) -> EventKind {
        if rank <= 0 {
            EventKind::DayTickerAll
        } else if rank == 1 {
            EventKind::DayTicker
        } else if rank == 2 {
            EventKind::BookTicker
        } else if rank == 3 {
            EventKind::MiniTicker
        } else if rank == 4 {
            EventKind::MiniTickerAll
        } else if rank == 5 {
            EventKind::AccountUpdate
        } else if rank == 6 {
            EventKind::OrderTrade
        } else if rank == 7 {
            EventKind::AggrTrades
        } else if rank == 8 {
            EventKind::IndexPrice
        } else if rank == 9 {
            EventKind::MarkPrice
        } else if rank == 10 {
            EventKind::MarkPriceAll
        } else if rank == 11 {
            EventKind::Trade
        } else if rank == 12 {
            EventKind::ContinuousKline
        } else if rank == 13 {
            EventKind::IndexKline
        } else if rank == 14 {
            EventKind::Liquidation
        } else if rank == 15 {
            EventKind::Kline
        } else if rank == 16 {
            EventKind::OrderBook
        } else if rank == 17 {
            EventKind::DepthOrderBook
        } else {
            EventKind::UserDataStreamExpiredEvent
        }
    }

    /// The shape that a frame of this kind has.
    pub open spec fn shape(self) -> PatternView {
        match self {
            EventKind::DayTickerAll => PatternView::list_of(day_ticker()),
            EventKind::DayTicker => day_ticker(),
            EventKind::BookTicker => book_ticker(),
            EventKind::MiniTicker => mini_ticker(),
            EventKind::MiniTickerAll => PatternView::list_of(mini_ticker()),
            EventKind::AccountUpdate => account_update(),
            EventKind::OrderTrade => order_trade(),
            EventKind::AggrTrades => aggr_trades(),
            EventKind::IndexPrice => index_price(),
            EventKind::MarkPrice => mark_price(),
            EventKind::MarkPriceAll => PatternView::list_of(mark_price()),
            EventKind::Trade => trade(),
            EventKind::ContinuousKline => continuous_kline(),
            EventKind::IndexKline => index_kline(),
            EventKind::Liquidation => liquidation(),
            EventKind::Kline => kline(),
            EventKind::OrderBook => order_book(),
            EventKind::DepthOrderBook => depth_order_book(),
            EventKind::UserDataStreamExpiredEvent => user_data_stream_expired(),
        }
    }

    /// The kind that is tried at the given place; `None` past the last.
    pub fn from_rank(rank: usize) -> (kind: Option<EventKind>)
        ensures
            rank < KINDS ==> kind == Some(EventKind::at(rank as int)),
            rank >= KINDS ==> kind is None,
            kind matches Some(k) ==> k.rank() == rank,
    {
        if rank == 0 {
            Some(EventKind::DayTickerAll)
        } else if rank == 1 {
            Some(EventKind::DayTicker)
        } else if rank == 2 {
            Some(EventKind::BookTicker)
        } else if rank == 3 {
            Some(EventKind::MiniTicker)
        } else if rank == 4 {
            Some(EventKind::MiniTickerAll)
        } else if rank == 5 {
            Some(EventKind::AccountUpdate)
        } else if rank == 6 {
            Some(EventKind::OrderTrade)
        } else if rank == 7 {
            Some(EventKind::AggrTrades)
        } else if rank == 8 {
            Some(EventKind::IndexPrice)
        } else if rank == 9 {
            Some(EventKind::MarkPrice)
        } else if rank == 10 {
            Some(EventKind::MarkPriceAll)
        } else if rank == 11 {
            Some(EventKind::Trade)
        } else if rank == 12 {
            Some(EventKind::ContinuousKline)
        } else if rank == 13 {
            Some(EventKind::IndexKline)
        } else if rank == 14 {
            Some(EventKind::Liquidation)
        } else if rank == 15 {
            Some(EventKind::Kline)
        } else if rank == 16 {
            Some(EventKind::OrderBook)
        } else if rank == 17 {
            Some(EventKind::DepthOrderBook)
        } else if rank == 18 {
            Some(EventKind::UserDataStreamExpiredEvent)
        } else {
            None
        }
    }

    /// The pattern that a frame of this kind is held against.
    pub fn pattern(self) -> (out: Pattern)
        ensures
            out@ == self.shape(),
    {
        match self {
            EventKind::DayTickerAll => Pattern::list_of(day_ticker_pattern()),
            EventKind::DayTicker => day_ticker_pattern(),
            EventKind::BookTicker => Fields::none().unsigned("u").text("s").text("b").text("B")
                .text("a").text("A").record(),
            EventKind::MiniTicker => mini_ticker_pattern(),
            EventKind::MiniTickerAll => Pattern::list_of(mini_ticker_pattern()),
            EventKind::AccountUpdate => account_update_pattern(),
            EventKind::OrderTrade => Fields::none().text("e").unsigned("E").unsigned("T")
                .required("o", order_pattern()).record(),
            EventKind::AggrTrades => Fields::none().text("e").unsigned("E").text("s").unsigned("a")
                .text("p").text("q").unsigned("f").unsigned("l").unsigned("T").flag("m").record(),
            EventKind::IndexPrice => Fields::none().text("e").unsigned("E").text("i").text("p")
                .record(),
            EventKind::MarkPrice => mark_price_pattern(),
            EventKind::MarkPriceAll => Pattern::list_of(mark_price_pattern()),
            EventKind::Trade => Fields::none().text("e").unsigned("E").text("s").unsigned("t")
                .text("p").text("q").unsigned("b").unsigned("a").unsigned("T").flag("m").record(),
            EventKind::ContinuousKline => Fields::none().text("e").unsigned("E").text("ps")
                .text("ct").required("k", candle_pattern()).record(),
            EventKind::IndexKline => Fields::none().text("e").unsigned("E").text("ps")
                .required("k", candle_pattern()).record(),
            EventKind::Liquidation => Fields::none().text("e").unsigned("E")
                .required("o", liquidation_order_pattern()).record(),
            EventKind::Kline => Fields::none().text("e").unsigned("E").text("s")
                .required("k", candle_pattern()).record(),
            EventKind::OrderBook => Fields::none().unsigned("lastUpdateId")
                .required("bids", Pattern::list_of(Pattern::decimal_pair()))
                .required("asks", Pattern::list_of(Pattern::decimal_pair())).record(),
            EventKind::DepthOrderBook => Fields::none().text("e").unsigned("E").text("s")
                .unsigned("U").unsigned("u").optional("pu", Pattern::Unsigned)
                .required("b", Pattern::list_of(Pattern::decimal_pair()))
                .required("a", Pattern::list_of(Pattern::decimal_pair())).record(),
            EventKind::UserDataStreamExpiredEvent => Fields::none().text("e").unsigned("E")
                .record(),
        }
    }
}

fn day_ticker_pattern() -> (out: Pattern)
    ensures
        out@ == day_ticker(),
{
    Fields::none().text("e").unsigned("E").text("s").text("p").text("P").text("w").text("c")
        .text("Q").text("o").text("h").text("l").text("v").text("q").unsigned("O").unsigned("C")
        .integer("F").integer("L").unsigned("n").record()
}

fn mini_ticker_pattern() -> (out: Pattern)
    ensures
        out@ == mini_ticker(),
{
    Fields::none().text("e").unsigned("E").text("s").text("c").text("o").text("h").text("l")
        .text("v").text("q").record()
}

fn account_update_pattern() -> (out: Pattern)
    ensures
        out@ == account_update(),
{
    let balance = Fields::none().text("a").text("wb").text("cw").record();
    let position = Fields::none().text("s").text("pa").text("ep").text("up").text("mt").text("iw")
        .text("ps").record();
    let data = Fields::none().text("m").required("B", Pattern::list_of(balance))
        .required("P", Pattern::list_of(position)).record();
    Fields::none().text("e").unsigned("E").required("a", data).record()
}

fn order_pattern() -> (out: Pattern)
    ensures
        out@ == order(),
{
    Fields::none().text("s").text("c").text("S").text("o").text("f").text("q").text("p").text("ap")
        .text("sp").text("x").text("X").unsigned("i").text("l").text("z").text("L")
        .optional("N", Pattern::Text).optional("n", Pattern::Text).unsigned("T").integer("t")
        .text("b").text("a").flag("m").flag("R").text("wt").text("ot").text("ps")
        .optional("cp", Pattern::Flag).optional("AP", Pattern::Text).optional("cr", Pattern::Text)
        .text("rp").record()
}

fn mark_price_pattern() -> (out: Pattern)
    ensures
        out@ == mark_price(),
{
    Fields::none().text("e").unsigned("E").text("s").text("p").optional("i", Pattern::Text)
        .text("r").unsigned("T").record()
}

fn candle_pattern() -> (out: Pattern)
    ensures
        out@ == candle(),
{
    Fields::none().unsigned("t").unsigned("T").text("i").integer("f").integer("L").text("o")
        .text("c").text("h").text("l").text("v").unsigned("n").flag("x").text("q").text("V")
        .text("Q").record()
}

fn liquidation_order_pattern() -> (out: Pattern)
    ensures
        out@ == liquidation_order(),
{
    Fields::none().text("s").text("S").text("o").text("f").text("q").text("p").text("ap").text("X")
        .text("l").text("z").unsigned("T").record()
}

} // verus!
