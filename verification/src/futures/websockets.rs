//! The streaming session of the futures market.

use vstd::prelude::*;
use std::sync::atomic::{AtomicBool, Ordering};
use crate::config::{Config, ConfigView};
use crate::errors::{fails, Error, ErrorKind};
use crate::futures::decode::{bare, classification, decode};
use crate::futures::endpoint::{join_streams, joined, resolve, resolved, FuturesWebsocketAPI};
use crate::futures::shapes::EventKind;
use crate::json::{parsed_text, Json, JsonValue};
use crate::schema::fits;

verus! {

/// The market segment that a subscription is made in. Each has its own
/// streaming base address.
pub enum FuturesMarket {
    /// Contracts margined in the quote currency.
    USDM,
    /// Contracts margined in the coin itself.
    COINM,
    /// The pre-launch segment.
    Vanilla,
}

/// One decoded event. Each variant carries the document, or for the batch
/// variants the documents, that had its shape.
#[derive(Debug, Clone)]
pub enum FuturesWebsocketEvent {
    AccountUpdate(Json),
    OrderTrade(Json),
    AggrTrades(Json),
    Trade(Json),
    OrderBook(Json),
    DayTicker(Json),
    MiniTicker(Json),
    MiniTickerAll(Vec<Json>),
    IndexPrice(Json),
    MarkPrice(Json),
    MarkPriceAll(Vec<Json>),
    DayTickerAll(Vec<Json>),
    Kline(Json),
    ContinuousKline(Json),
    IndexKline(Json),
    Liquidation(Json),
    DepthOrderBook(Json),
    BookTicker(Json),
    UserDataStreamExpiredEvent(Json),
}

impl FuturesWebsocketEvent {
    /// Which of the events this is.
    pub open spec fn kind_of(&self) -> EventKind {
        match self {
            FuturesWebsocketEvent::AccountUpdate(_) => EventKind::AccountUpdate,
            FuturesWebsocketEvent::OrderTrade(_) => EventKind::OrderTrade,
            FuturesWebsocketEvent::AggrTrades(_) => EventKind::AggrTrades,
            FuturesWebsocketEvent::Trade(_) => EventKind::Trade,
            FuturesWebsocketEvent::OrderBook(_) => EventKind::OrderBook,
            FuturesWebsocketEvent::DayTicker(_) => EventKind::DayTicker,
            FuturesWebsocketEvent::MiniTicker(_) => EventKind::MiniTicker,
            FuturesWebsocketEvent::MiniTickerAll(_) => EventKind::MiniTickerAll,
            FuturesWebsocketEvent::IndexPrice(_) => EventKind::IndexPrice,
            FuturesWebsocketEvent::MarkPrice(_) => EventKind::MarkPrice,
            FuturesWebsocketEvent::MarkPriceAll(_) => EventKind::MarkPriceAll,
            FuturesWebsocketEvent::DayTickerAll(_) => EventKind::DayTickerAll,
            FuturesWebsocketEvent::Kline(_) => EventKind::Kline,
            FuturesWebsocketEvent::ContinuousKline(_) => EventKind::ContinuousKline,
            FuturesWebsocketEvent::IndexKline(_) => EventKind::IndexKline,
            FuturesWebsocketEvent::Liquidation(_) => EventKind::Liquidation,
            FuturesWebsocketEvent::DepthOrderBook(_) => EventKind::DepthOrderBook,
            FuturesWebsocketEvent::BookTicker(_) => EventKind::BookTicker,
            FuturesWebsocketEvent::UserDataStreamExpiredEvent(_) => {
                EventKind::UserDataStreamExpiredEvent
            },
        }
    }

    /// The document that this event was made from: the payload itself, or
    /// for a batch the array of its payloads.
    pub open spec fn document(self) -> JsonValue {
        match self {
            FuturesWebsocketEvent::AccountUpdate(payload) => payload@,
            FuturesWebsocketEvent::OrderTrade(payload) => payload@,
            FuturesWebsocketEvent::AggrTrades(payload) => payload@,
            FuturesWebsocketEvent::Trade(payload) => payload@,
            FuturesWebsocketEvent::OrderBook(payload) => payload@,
            FuturesWebsocketEvent::DayTicker(payload) => payload@,
            FuturesWebsocketEvent::MiniTicker(payload) => payload@,
            FuturesWebsocketEvent::MiniTickerAll(payloads) => Json::Array(payloads)@,
            FuturesWebsocketEvent::IndexPrice(payload) => payload@,
            FuturesWebsocketEvent::MarkPrice(payload) => payload@,
            FuturesWebsocketEvent::MarkPriceAll(payloads) => Json::Array(payloads)@,
            FuturesWebsocketEvent::DayTickerAll(payloads) => Json::Array(payloads)@,
            FuturesWebsocketEvent::Kline(payload) => payload@,
            FuturesWebsocketEvent::ContinuousKline(payload) => payload@,
            FuturesWebsocketEvent::IndexKline(payload) => payload@,
            FuturesWebsocketEvent::Liquidation(payload) => payload@,
            FuturesWebsocketEvent::DepthOrderBook(payload) => payload@,
            FuturesWebsocketEvent::BookTicker(payload) => payload@,
            FuturesWebsocketEvent::UserDataStreamExpiredEvent(payload) => payload@,
        }
    }

    /// True when the payload has the shape of the variant that carries it.
    pub open spec fn well_formed(self) -> bool {
        fits(self.document(), self.kind_of().shape())
    }

    /// Which of the events this is.
    #[verifier::when_used_as_spec(kind_of)]
    pub fn kind(&self) -> (kind: EventKind)
        ensures
            kind == self.kind_of(),
    {
        match self {
            FuturesWebsocketEvent::AccountUpdate(_) => EventKind::AccountUpdate,
            FuturesWebsocketEvent::OrderTrade(_) => EventKind::OrderTrade,
            FuturesWebsocketEvent::AggrTrades(_) => EventKind::AggrTrades,
            FuturesWebsocketEvent::Trade(_) => EventKind::Trade,
            FuturesWebsocketEvent::OrderBook(_) => EventKind::OrderBook,
            FuturesWebsocketEvent::DayTicker(_) => EventKind::DayTicker,
            FuturesWebsocketEvent::MiniTicker(_) => EventKind::MiniTicker,
            FuturesWebsocketEvent::MiniTickerAll(_) => EventKind::MiniTickerAll,
            FuturesWebsocketEvent::IndexPrice(_) => EventKind::IndexPrice,
            FuturesWebsocketEvent::MarkPrice(_) => EventKind::MarkPrice,
            FuturesWebsocketEvent::MarkPriceAll(_) => EventKind::MarkPriceAll,
            FuturesWebsocketEvent::DayTickerAll(_) => EventKind::DayTickerAll,
            FuturesWebsocketEvent::Kline(_) => EventKind::Kline,
            FuturesWebsocketEvent::ContinuousKline(_) => EventKind::ContinuousKline,
            FuturesWebsocketEvent::IndexKline(_) => EventKind::IndexKline,
            FuturesWebsocketEvent::Liquidation(_) => EventKind::Liquidation,
            FuturesWebsocketEvent::DepthOrderBook(_) => EventKind::DepthOrderBook,
            FuturesWebsocketEvent::BookTicker(_) => EventKind::BookTicker,
            FuturesWebsocketEvent::UserDataStreamExpiredEvent(_) => {
                EventKind::UserDataStreamExpiredEvent
            },
        }
    }
}

/// One frame as the transport delivers it.
#[derive(Debug, Clone)]
pub enum Frame {
    /// A text message.
    Text(String),
    /// A binary message.
    Binary,
    /// A keep-alive request of the peer.
    Ping,
    /// A keep-alive answer.
    Pong,
    /// A frame that the transport hands on without reading it.
    Raw,
    /// The peer closes the connection, for the reason given.
    Close(String),
}

/// What a frame asks of the loop, before the handler has had a say.
pub enum Plan {
    /// Hand this event to the handler.
    Deliver(FuturesWebsocketEvent),
    /// Nothing to do.
    Skip,
    /// Answer with a pong.
    Pong,
    /// End the loop with this failure.
    Stop(Error),
}

/// What the loop does after a frame.
#[derive(Debug)]
pub enum Step {
    /// Read the next frame.
    Continue,
    /// Send a pong, then read the next frame.
    Pong,
    /// End the loop with this failure.
    Stop(Error),
}

/// Where a session stands.
#[derive(Clone, Copy, Debug, PartialEq, Eq, Structural)]
pub enum SessionState {
    /// No connection handle.
    Idle,
    /// A handle is present and the loop has not started.
    Connected,
    /// The loop is reading.
    Running,
    /// The loop has ended; the handle may still be open.
    Terminated,
}

/// The prefix of the failure that ends the loop over a text frame.
pub open spec fn handling_prefix() -> Seq<char> {
    "Error on handling stream message: "@
}

/// True when `plan` is what `frame` asks for. A text frame that is no JSON
/// ends the loop; one of a known shape is delivered; one of no known shape is
/// passed over. A ping is answered, a close frame ends the loop, and every
/// other frame is passed over.
pub open spec fn planned(frame: Frame, plan: Plan) -> bool {
    match frame {
        Frame::Text(text) => match parsed_text(text@) {
            Err(message) => plan matches Plan::Stop(e) && e.is(
                ErrorKind::DecodeError,
                handling_prefix() + message,
            ),
            Ok(document) => match classification(bare(document)) {
                Some(kind) => plan matches Plan::Deliver(event) && event.kind_of() == kind
                    && event.document() == bare(document),
                None => plan is Skip,
            },
        },
        Frame::Ping => plan is Pong,
        Frame::Close(reason) => plan matches Plan::Stop(e) && e.is(
            ErrorKind::PeerCloseError,
            "Disconnected "@ + reason@,
        ),
        _ => plan is Skip,
    }
}

/// True when `step` is what follows from the handler's `outcome`: go on after
/// a success, end the loop with a `HandlerError` that names the handler's
/// failure after a failure.
pub open spec fn settled(outcome: Result<(), Error>, step: Step) -> bool {
    match outcome {
        Ok(_) => step is Continue,
        Err(cause) => step matches Step::Stop(e) && e.is(
            ErrorKind::HandlerError,
            handling_prefix() + cause.message@,
        ),
    }
}

/// Decides what a frame asks of the loop.
pub fn plan(frame: &Frame) -> (out: Plan)
    ensures
        planned(*frame, out),
{
    match frame {
        Frame::Text(text) => match decode(text.as_str()) {
            Ok(Some(event)) => Plan::Deliver(event),
            Ok(None) => Plan::Skip,
            Err(e) => Plan::Stop(
                Error::with_detail(
                    ErrorKind::DecodeError,
                    "Error on handling stream message: ",
                    e.message.as_str(),
                ),
            ),
        },
        Frame::Ping => Plan::Pong,
        Frame::Close(reason) => Plan::Stop(
            Error::with_detail(ErrorKind::PeerCloseError, "Disconnected ", reason.as_str()),
        ),
        _ => Plan::Skip,
    }
}

/// Decides what follows from the handler's outcome.
pub fn settle(outcome: Result<(), Error>) -> (step: Step)
    ensures
        settled(outcome, step),
{
    match outcome {
        Ok(_) => Step::Continue,
        Err(cause) => Step::Stop(
            Error::with_detail(
                ErrorKind::HandlerError,
                "Error on handling stream message: ",
                cause.message.as_str(),
            ),
        ),
    }
}

/// The caller's logic. It is called once for each event, in the order in
/// which the events arrive, and a failure that it reports ends the session.
pub trait EventHandler: Sized {
    /// What the implementation says of one call: that a handler in the state
    /// `self`, given `event`, may report `outcome` and be left as `after`.
    /// An implementation that says nothing allows every outcome.
    open spec fn reacts(
        &self,
        event: FuturesWebsocketEvent,
        outcome: Result<(), Error>,
        after: &Self,
    ) -> bool {
        true
    }

    /// Consumes one event.
    fn handle(&mut self, event: FuturesWebsocketEvent) -> (outcome: Result<(), Error>)
        ensures
            old(self).reacts(event, outcome, final(self)),
    ;
}

/// A handler that keeps every event it is given and never fails.
pub struct Collector {
    pub events: Vec<FuturesWebsocketEvent>,
}

impl Collector {
    /// A collector that holds nothing yet.
    pub fn new() -> (out: Collector)
        ensures
            out.events@.len() == 0,
    {
        Collector { events: Vec::new() }
    }
}

impl EventHandler for Collector {
    open spec fn reacts(
        &self,
        event: FuturesWebsocketEvent,
        outcome: Result<(), Error>,
        after: &Self,
    ) -> bool {
        outcome is Ok && after.events@ == self.events@.push(event)
    }

    fn handle(&mut self, event: FuturesWebsocketEvent) -> (outcome: Result<(), Error>) {
        self.events.push(event);
        Ok(())
    }
}

/// The state in which the end of the loop leaves a session.
pub open spec fn ended(state: SessionState) -> SessionState {
    if state == SessionState::Idle {
        SessionState::Idle
    } else {
        SessionState::Terminated
    }
}

/// True when the handler went from `before` to `after` and the loop took
/// `step`, as `plan` asks: an event is handed to the handler once and the
/// step follows from its outcome; otherwise the handler is left alone.
pub open spec fn carried_out<H: EventHandler>(plan: Plan, before: H, after: H, step: Step) -> bool {
    match plan {
        Plan::Deliver(event) => exists|outcome: Result<(), Error>| #[trigger]
            before.reacts(event, outcome, &after) && settled(outcome, step),
        Plan::Skip => step is Continue && after == before,
        Plan::Pong => step is Pong && after == before,
        Plan::Stop(e) => step == Step::Stop(e) && after == before,
    }
}

/// True when the loop took `step` over `frame` while the handler went from
/// `before` to `after`: what the frame asks for was carried out.
pub open spec fn stepped<H: EventHandler>(frame: Frame, before: H, after: H, step: Step) -> bool {
    exists|plan: Plan| #[trigger] planned(frame, plan) && carried_out(plan, before, after, step)
}

/// True when the loop went over the first `k` frames in order without
/// ending, while the handler went from `before` to `after`.
pub open spec fn relayed<H: EventHandler>(frames: Seq<Frame>, k: int, before: H, after: H) -> bool
    decreases k,
{
    if k <= 0 {
        after == before
    } else {
        exists|mid: H, step: Step|
            relayed(frames, k - 1, before, mid) && #[trigger] stepped(
                frames[k - 1],
                mid,
                after,
                step,
            ) && !(step is Stop)
    }
}

/// True when the failure `e` is how the loop ended after `k` frames, the
/// handler going from `mid` to `after`: the caller cleared the flag, or no
/// handle was there to read from, or the frames had run out, or the frame at
/// place `k` ended the loop.
pub open spec fn closed_by<H: EventHandler>(
    frames: Seq<Frame>,
    k: int,
    mid: H,
    after: H,
    e: Error,
) -> bool {
    ||| after == mid && e.is(ErrorKind::StoppedByCaller, "running loop closed"@)
    ||| after == mid && e.is(ErrorKind::NotConnectedError, "No connection to read from"@)
    ||| after == mid && k == frames.len() && e.is(ErrorKind::TransportError, "stream ended"@)
    ||| 0 <= k < frames.len() && stepped(frames[k], mid, after, Step::Stop(e))
}

/// The pongs owed for the given frames: one for each ping, in order.
pub open spec fn answers(frames: Seq<Frame>) -> Seq<Frame>
    decreases frames.len(),
{
    if frames.len() == 0 {
        Seq::empty()
    } else if frames.last() is Ping {
        answers(frames.drop_last()).push(Frame::Pong)
    } else {
        answers(frames.drop_last())
    }
}

/// Reads the caller's flag: `true` while the loop is to go on.
pub fn is_running(running: &AtomicBool) -> bool {
    running.load(Ordering::Relaxed)
}

/// A streaming session: whether a connection handle is present, how far the
/// read loop has come, and the caller's handler.
///
/// The session performs no traffic. The transport dials the address that
/// `connect` resolves and reports back with `handshake`; it reads frames and
/// hands each to `on_frame`, and sends what the returned step asks for.
pub struct FuturesWebSockets<H: EventHandler> {
    pub state: SessionState,
    pub handler: H,
}

impl<H: EventHandler> FuturesWebSockets<H> {
    /// A session without a connection.
    pub fn new(handler: H) -> (session: Self)
        ensures
            session.state == SessionState::Idle,
            session.handler == handler,
    {
        FuturesWebSockets { state: SessionState::Idle, handler }
    }

    /// True when a connection handle is present.
    pub open spec fn has_handle(&self) -> bool {
        self.state != SessionState::Idle
    }

    /// The address to dial for one subscription at the production venue.
    pub fn connect(&self, market: &FuturesMarket, subscription: &str) -> (out: Result<
        String,
        Error,
    >)
        ensures
            resolved(
                FuturesWebsocketAPI::Default.endpoint(
                    *market,
                    subscription@,
                    ConfigView::production(),
                ),
                out,
            ),
    {
        let config = Config::default();
        resolve(FuturesWebsocketAPI::Default, market, subscription, &config)
    }

    /// The address to dial for one subscription at the configured venue.
    pub fn connect_with_config(
        &self,
        market: &FuturesMarket,
        subscription: &str,
        config: &Config,
    ) -> (out: Result<String, Error>)
        ensures
            resolved(FuturesWebsocketAPI::Default.endpoint(*market, subscription@, config@), out),
    {
        resolve(FuturesWebsocketAPI::Default, market, subscription, config)
    }

    /// The address to dial for several streams over one connection at the
    /// production venue. The names are taken as they are.
    pub fn connect_multiple_streams(&self, market: &FuturesMarket, endpoints: &[String]) -> (out:
        Result<String, Error>)
        ensures
            resolved(
                FuturesWebsocketAPI::MultiStream.endpoint(
                    *market,
                    joined(endpoints@),
                    ConfigView::production(),
                ),
                out,
            ),
    {
        let config = Config::default();
        let subscription = join_streams(endpoints);
        resolve(FuturesWebsocketAPI::MultiStream, market, subscription.as_str(), &config)
    }

    /// The address to dial for several streams over one connection at the
    /// configured venue. The names are taken as they are.
    pub fn connect_multiple_streams_with_config(
        &self,
        market: &FuturesMarket,
        endpoints: &[String],
        config: &Config,
    ) -> (out: Result<String, Error>)
        ensures
            resolved(
                FuturesWebsocketAPI::MultiStream.endpoint(*market, joined(endpoints@), config@),
                out,
            ),
    {
        let subscription = join_streams(endpoints);
        resolve(FuturesWebsocketAPI::MultiStream, market, subscription.as_str(), config)
    }

    /// Records how dialling went. After a success the session holds the new
    /// handle, in place of any it held before. A failure leaves the session
    /// as it was and gives a `HandshakeError` that names the reason.
    pub fn handshake(&mut self, outcome: Result<(), String>) -> (out: Result<(), Error>)
        ensures
            final(self).handler == old(self).handler,
            match outcome {
                Ok(_) => out is Ok && final(self).state == SessionState::Connected,
                Err(reason) => final(self).state == old(self).state && fails(out, 
                    ErrorKind::HandshakeError,
                    "Error during handshake "@ + reason@,
                ),
            },
    {
        match outcome {
            Ok(_) => {
                self.state = SessionState::Connected;
                Ok(())
            },
            Err(reason) => Err(
                Error::with_detail(
                    ErrorKind::HandshakeError,
                    "Error during handshake ",
                    reason.as_str(),
                ),
            ),
        }
    }

    /// Asks to close the connection. With a handle present the answer is
    /// `Ok`, and the transport sends the close frame; without one it is a
    /// `NotConnectedError`. The session is left as it was.
    pub fn disconnect(&mut self) -> (out: Result<(), Error>)
        ensures
            *final(self) == *old(self),
            old(self).has_handle() ==> out is Ok,
            !old(self).has_handle() ==> fails(out, 
                ErrorKind::NotConnectedError,
                "Not able to close the connection"@,
            ),
    {
        if self.state != SessionState::Idle {
            Ok(())
        } else {
            Err(Error::new(ErrorKind::NotConnectedError, "Not able to close the connection"))
        }
    }

    /// Handles one text message outside the loop.
    pub fn test_handle_msg(&mut self, msg: &str) -> (out: Result<(), Error>)
        ensures
            final(self).state == old(self).state,
            handled(parsed_text(msg@), old(self).handler, final(self).handler, out),
    {
        self.handle_msg(msg)
    }

    /// Handles one text message: decodes it and hands the event, if it is
    /// one, to the handler. A message of no known shape is passed over in
    /// silence; the handler's own failure comes back as it is.
    pub fn handle_msg(&mut self, msg: &str) -> (out: Result<(), Error>)
        ensures
            final(self).state == old(self).state,
            handled(parsed_text(msg@), old(self).handler, final(self).handler, out),
    {
        match decode(msg) {
            Ok(Some(event)) => self.handler.handle(event),
            Ok(None) => Ok(()),
            Err(e) => Err(e),
        }
    }

    /// Opens one turn of the loop, with the caller's flag as it was read. A
    /// cleared flag ends the loop with `StoppedByCaller`; a session without a
    /// handle cannot read and gives `NotConnectedError`; otherwise the
    /// session is running and the transport reads the next frame.
    pub fn poll(&mut self, running: bool) -> (out: Result<(), Error>)
        ensures
            final(self).handler == old(self).handler,
            !running ==> final(self).state == ended(old(self).state) && fails(out, 
                ErrorKind::StoppedByCaller,
                "running loop closed"@,
            ),
            running && !old(self).has_handle() ==> final(self).state == SessionState::Idle
                && fails(out, 
                ErrorKind::NotConnectedError,
                "No connection to read from"@,
            ),
            running && old(self).has_handle() ==> final(self).state == SessionState::Running
                && out is Ok,
    {
        if !running {
            self.end();
            Err(Error::new(ErrorKind::StoppedByCaller, "running loop closed"))
        } else if self.state == SessionState::Idle {
            Err(Error::new(ErrorKind::NotConnectedError, "No connection to read from"))
        } else {
            self.state = SessionState::Running;
            Ok(())
        }
    }

    /// Takes one frame that the transport has read and says what the loop
    /// does next. The handler is called at most once, with the event that the
    /// frame decodes to. A step that ends the loop leaves the session
    /// terminated.
    pub fn on_frame(&mut self, frame: &Frame) -> (step: Step)
        ensures
            stepped(*frame, old(self).handler, final(self).handler, step),
            step is Stop ==> final(self).state == ended(old(self).state),
            !(step is Stop) ==> final(self).state == old(self).state,
    {
        let step = match plan(frame) {
            Plan::Deliver(event) => settle(self.handler.handle(event)),
            Plan::Skip => Step::Continue,
            Plan::Pong => Step::Pong,
            Plan::Stop(e) => Step::Stop(e),
        };
        match &step {
            Step::Stop(_) => {
                self.end();
            },
            _ => {},
        }
        step
    }

    /// Records that reading from the transport failed, which ends the loop
    /// with a `TransportError` that carries the reason.
    pub fn read_failed(&mut self, reason: &str) -> (e: Error)
        ensures
            final(self).handler == old(self).handler,
            final(self).state == ended(old(self).state),
            e.is(ErrorKind::TransportError, reason@),
    {
        self.end();
        Error::new(ErrorKind::TransportError, reason)
    }

    /// Marks the loop as ended.
    fn end(&mut self)
        ensures
            final(self).handler == old(self).handler,
            final(self).state == ended(old(self).state),
    {
        if self.state != SessionState::Idle {
            self.state = SessionState::Terminated;
        }
    }

    /// Runs the loop over frames that were read beforehand, and puts the
    /// pongs that are owed into `replies`. Before each frame the caller's
    /// flag is read. The frames are taken in order, each event is handed to
    /// the handler once, and the loop never ends in silence: it ends with the
    /// failure of the first frame that ends it, with `StoppedByCaller` or
    /// `NotConnectedError`, or past the last frame with a `TransportError`.
    pub fn event_loop(
        &mut self,
        running: &AtomicBool,
        frames: &[Frame],
        replies: &mut Vec<Frame>,
    ) -> (out: Result<(), Error>)
        ensures
            final(self).state == ended(old(self).state),
            out matches Err(e) && exists|k: int, mid: H|
                0 <= k <= frames@.len() && #[trigger] relayed(
                    frames@,
                    k,
                    old(self).handler,
                    mid,
                ) && final(replies)@ == old(replies)@ + answers(frames@.take(k)) && closed_by(
                    frames@,
                    k,
                    mid,
                    final(self).handler,
                    e,
                ),
    {
        let ghost first = self.state;
        let ghost sent = replies@;
        let mut i: usize = 0;
        loop
            invariant
                first == old(self).state,
                sent == old(replies)@,
                i <= frames@.len(),
                relayed(frames@, i as int, old(self).handler, self.handler),
                replies@ == sent + answers(frames@.take(i as int)),
                self.state == first || (first != SessionState::Idle && self.state
                    == SessionState::Running),
            decreases frames@.len() - i,
        {
            let flag = is_running(running);
            match self.poll(flag) {
                Err(e) => {
                    return Err(e);
                },
                Ok(_) => {},
            }
            if i >= frames.len() {
                let e = self.read_failed("stream ended");
                return Err(e);
            }
            let frame = &frames[i];
            let step = self.on_frame(frame);
            proof {
                let before = frames@.take(i as int);
                let after = frames@.take(i + 1);
                assert(after.drop_last() =~= before);
                assert(after.last() == *frame);
            }
            match step {
                Step::Continue => {},
                Step::Pong => {
                    replies.push(Frame::Pong);
                },
                Step::Stop(e) => {
                    return Err(e);
                },
            }
            i += 1;
        }
    }
}

/// True when `out` is what handling a text message gives, the parser having
/// made `parsed` of it. Text that is no JSON gives a `DecodeError` and a
/// message of no known shape gives `Ok`, the handler being left alone in
/// both cases; an event is handed to the handler once, whose outcome is
/// `out`.
pub open spec fn handled<H: EventHandler>(
    parsed: Result<JsonValue, Seq<char>>,
    before: H,
    after: H,
    out: Result<(), Error>,
) -> bool {
    match parsed {
        Err(message) => after == before && fails(out, 
            ErrorKind::DecodeError,
            message,
        ),
        Ok(document) => match classification(bare(document)) {
            None => after == before && out is Ok,
            Some(kind) => exists|event: FuturesWebsocketEvent|
                event.kind_of() == kind && event.document() == bare(document) && #[trigger]
                before.reacts(event, out, &after),
        },
    }
}

} // verus!
