//! From a text frame to an event: unwrap the envelope, then recognise the shape.

use vstd::prelude::*;
use vstd::pervasive::unreached;
use crate::errors::{fails, Error, ErrorKind};
use crate::futures::shapes::{EventKind, KINDS};
use crate::futures::websockets::FuturesWebsocketEvent;
use crate::json::{
    find_member, has_key, key_position, lemma_object_view, parsed_text, Json, JsonValue,
};
use crate::schema::fits;

verus! {

/// The key under which a multiplexed connection wraps each event.
pub open spec fn envelope_key() -> Seq<char> {
    "data"@
}

/// The document inside every envelope around `v`: what is left when `data`
/// has been followed until an object without it, or something that is no
/// object, is reached.
pub open spec fn bare(v: JsonValue) -> JsonValue
    decreases v,
{
    match v {
        JsonValue::Object(members) => if has_key(members, envelope_key()) {
            let at = key_position(members, envelope_key());
            if 0 <= at < members.len() {
                bare(members[at].value)
            } else {
                v
            }
        } else {
            v
        },
        _ => v,
    }
}

/// The first kind from place `from` on whose shape `v` has.
pub open spec fn first_match(v: JsonValue, from: int) -> Option<EventKind>
    decreases KINDS - from,
{
    if from < 0 || from >= KINDS {
        None
    } else if fits(v, EventKind::at(from).shape()) {
        Some(EventKind::at(from))
    } else {
        first_match(v, from + 1)
    }
}

/// The kind of event that the bare document `v` is: the first in the order
/// of precedence whose shape it has, if any.
pub open spec fn classification(v: JsonValue) -> Option<EventKind> {
    first_match(v, 0)
}

/// True when `found` is what the bare document `v` classifies as: the event
/// of the first kind whose shape `v` has, made from `v` itself, or nothing.
pub open spec fn classified(v: JsonValue, found: Option<FuturesWebsocketEvent>) -> bool {
    match classification(v) {
        Some(kind) => found matches Some(event) && event.kind_of() == kind && event.document() == v,
        None => found is None,
    }
}

/// Strips every level of envelope from `value`.
pub fn strip_envelope(value: Json) -> (out: Json)
    ensures
        out@ == bare(value@),
    decreases value,
{
    match value {
        Json::Object(members) => {
            proof {
                lemma_object_view(members);
            }
            match find_member(&members, "data") {
                Some(at) => {
                    let mut members = members;
                    let member = members.remove(at);
                    strip_envelope(member.value)
                },
                None => Json::Object(members),
            }
        },
        other => other,
    }
}

/// Makes the event of the given kind out of a document of its shape.
fn wrap(kind: EventKind, document: Json) -> (event: FuturesWebsocketEvent)
    requires
        fits(document@, kind.shape()),
    ensures
        event.kind_of() == kind,
        event.document() == document@,
{
    match kind {
        EventKind::DayTickerAll => match document {
            Json::Array(items) => FuturesWebsocketEvent::DayTickerAll(items),
            _ => unreached(),
        },
        EventKind::DayTicker => FuturesWebsocketEvent::DayTicker(document),
        EventKind::BookTicker => FuturesWebsocketEvent::BookTicker(document),
        EventKind::MiniTicker => FuturesWebsocketEvent::MiniTicker(document),
        EventKind::MiniTickerAll => match document {
            Json::Array(items) => FuturesWebsocketEvent::MiniTickerAll(items),
            _ => unreached(),
        },
        EventKind::AccountUpdate => FuturesWebsocketEvent::AccountUpdate(document),
        EventKind::OrderTrade => FuturesWebsocketEvent::OrderTrade(document),
        EventKind::AggrTrades => FuturesWebsocketEvent::AggrTrades(document),
        EventKind::IndexPrice => FuturesWebsocketEvent::IndexPrice(document),
        EventKind::MarkPrice => FuturesWebsocketEvent::MarkPrice(document),
        EventKind::MarkPriceAll => match document {
            Json::Array(items) => FuturesWebsocketEvent::MarkPriceAll(items),
            _ => unreached(),
        },
        EventKind::Trade => FuturesWebsocketEvent::Trade(document),
        EventKind::ContinuousKline => FuturesWebsocketEvent::ContinuousKline(document),
        EventKind::IndexKline => FuturesWebsocketEvent::IndexKline(document),
        EventKind::Liquidation => FuturesWebsocketEvent::Liquidation(document),
        EventKind::Kline => FuturesWebsocketEvent::Kline(document),
        EventKind::OrderBook => FuturesWebsocketEvent::OrderBook(document),
        EventKind::DepthOrderBook => FuturesWebsocketEvent::DepthOrderBook(document),
        EventKind::UserDataStreamExpiredEvent => FuturesWebsocketEvent::UserDataStreamExpiredEvent(
            document,
        ),
    }
}

/// Recognises a bare document: tries the shapes in the order of precedence
/// and makes the event of the first that fits. A document of no known shape
/// gives `None`.
pub fn classify(document: Json) -> (found: Option<FuturesWebsocketEvent>)
    ensures
        classified(document@, found),
{
    let mut rank: usize = 0;
    while rank < KINDS
        invariant
            rank <= KINDS,
            first_match(document@, rank as int) == classification(document@),
        decreases KINDS - rank,
    {
        match EventKind::from_rank(rank) {
            Some(kind) => {
                let pattern = kind.pattern();
                if document.conforms(&pattern) {
                    return Some(wrap(kind, document));
                }
            },
            None => {},
        }
        rank += 1;
    }
    None
}

/// What a text frame decodes to, given what the parser made of it: a
/// failure when it is no JSON, else the classification of the document
/// inside its envelopes.
pub open spec fn decoded(
    parsed: Result<JsonValue, Seq<char>>,
    out: Result<Option<FuturesWebsocketEvent>, Error>,
) -> bool {
    match parsed {
        Ok(document) => out matches Ok(found) && classified(bare(document), found),
        Err(message) => fails(out, ErrorKind::DecodeError, message),
    }
}

/// Decodes one text frame: reads it as JSON, strips the envelope and
/// recognises what is left.
pub fn decode(text: &str) -> (out: Result<Option<FuturesWebsocketEvent>, Error>)
    ensures
        decoded(parsed_text(text@), out),
{
    match Json::parse(text) {
        Ok(document) => Ok(classify(strip_envelope(document))),
        Err(e) => Err(e),
    }
}

} // verus!
