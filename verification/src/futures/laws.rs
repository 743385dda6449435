//! What holds of decoding and of the loop, for every frame.

use vstd::prelude::*;
use crate::errors::{Error, ErrorKind};
use crate::futures::decode::{bare, classification, classified, envelope_key, first_match};
use crate::futures::shapes::{day_ticker, mini_ticker, EventKind, KINDS};
use crate::futures::websockets::{
    closed_by, handling_prefix, relayed, stepped, EventHandler, Frame, FuturesWebsocketEvent, Step,
};
use crate::json::{has_key, holds_key_at, key_position, parsed_text, JsonValue};
use crate::schema::{fits, FieldView, PatternView};

verus! {

/// Every kind stands at the place that its rank gives, and the places from 0
/// to 18 hold the nineteen kinds.
pub proof fn lemma_rank_and_place(kind: EventKind, rank: int)
    ensures
        0 <= kind.rank() < KINDS,
        EventKind::at(kind.rank()) == kind,
        0 <= rank < KINDS ==> EventKind::at(rank).rank() == rank,
{
}

/// From any place on, the first match is the first kind whose shape fits.
proof fn lemma_first_match(v: JsonValue, from: int)
    requires
        0 <= from <= KINDS,
    ensures
        match first_match(v, from) {
            Some(kind) => from <= kind.rank() < KINDS && fits(v, kind.shape()) && forall|j: int|
                from <= j < kind.rank() ==> !fits(v, (#[trigger] EventKind::at(j)).shape()),
            None => forall|j: int|
                from <= j < KINDS ==> !fits(v, (#[trigger] EventKind::at(j)).shape()),
        },
    decreases KINDS - from,
{
    if from < KINDS {
        lemma_rank_and_place(EventKind::at(from), from);
        if !fits(v, EventKind::at(from).shape()) {
            lemma_first_match(v, from + 1);
        }
    }
}

/// A document classifies as a kind exactly when it has the shape of that
/// kind and of no kind that is tried before it.
pub proof fn lemma_classification_is_first_fit(v: JsonValue, kind: EventKind)
    ensures
        classification(v) == Some(kind) <==> (fits(v, kind.shape()) && forall|j: int|
            0 <= j < kind.rank() ==> !fits(v, (#[trigger] EventKind::at(j)).shape())),
{
    lemma_first_match(v, 0);
    lemma_rank_and_place(kind, 0);
    match classification(v) {
        Some(found) => {
            lemma_rank_and_place(found, 0);
            if found != kind && fits(v, kind.shape()) && (forall|j: int|
                0 <= j < kind.rank() ==> !fits(v, (#[trigger] EventKind::at(j)).shape())) {
                if found.rank() < kind.rank() {
                    assert(!fits(v, EventKind::at(found.rank()).shape()));
                } else {
                    assert(!fits(v, EventKind::at(kind.rank()).shape()));
                }
            }
        },
        None => {
            assert(!fits(v, EventKind::at(kind.rank()).shape()));
        },
    }
}

/// A document that fits no shape is no event.
pub proof fn lemma_unknown_shape_is_no_event(v: JsonValue)
    ensures
        classification(v) is None <==> forall|kind: EventKind| !fits(v, #[trigger] kind.shape()),
{
    lemma_first_match(v, 0);
    if classification(v) is None {
        assert forall|kind: EventKind| !fits(v, #[trigger] kind.shape()) by {
            lemma_rank_and_place(kind, 0);
            assert(!fits(v, EventKind::at(kind.rank()).shape()));
        }
    }
}

/// Precedence: where a document has the shapes of two kinds, it is never
/// classified as the one that is tried later.
pub proof fn lemma_precedence(v: JsonValue, earlier: EventKind, later: EventKind)
    requires
        earlier.rank() < later.rank(),
        fits(v, earlier.shape()),
    ensures
        classification(v) matches Some(kind) && kind.rank() <= earlier.rank(),
        classification(v) != Some(later),
{
    lemma_first_match(v, 0);
    lemma_rank_and_place(earlier, 0);
    match classification(v) {
        Some(kind) => {
            if kind.rank() > earlier.rank() {
                assert(!fits(v, EventKind::at(earlier.rank()).shape()));
            }
        },
        None => {
            assert(!fits(v, EventKind::at(earlier.rank()).shape()));
        },
    }
}

/// The event that a document classifies as carries that document, and the
/// document has the shape of the event's variant.
pub proof fn lemma_classified_is_well_formed(v: JsonValue, event: FuturesWebsocketEvent)
    requires
        classified(v, Some(event)),
    ensures
        event.document() == v,
        event.well_formed(),
{
    lemma_first_match(v, 0);
}

/// The shapes overlap: every document with the shape of a day ticker has
/// the shape of a mini ticker too. It is the order that decides, and such a
/// document is a day ticker.
pub proof fn lemma_day_ticker_before_mini_ticker(v: JsonValue)
    requires
        fits(v, day_ticker()),
    ensures
        fits(v, mini_ticker()),
        classification(v) == Some(EventKind::DayTicker),
{
    let day = day_ticker()->Record_0;
    let mini = mini_ticker()->Record_0;
    assert(mini[0] == day[0]);
    assert(mini[1] == day[1]);
    assert(mini[2] == day[2]);
    assert(mini[3] == day[6]);
    assert(mini[4] == day[8]);
    assert(mini[5] == day[9]);
    assert(mini[6] == day[10]);
    assert(mini[7] == day[11]);
    assert(mini[8] == day[12]);
    assert(mini.len() == 9);
    lemma_classification_is_first_fit(v, EventKind::DayTicker);
    assert forall|j: int| 0 <= j < EventKind::DayTicker.rank() implies !fits(
        v,
        (#[trigger] EventKind::at(j)).shape(),
    ) by {
        assert(EventKind::at(j) == EventKind::DayTickerAll);
    }
}

/// A batch is an array, and a single event is an object: no document has
/// the shape of both.
pub proof fn lemma_batch_is_no_single(v: JsonValue, item: PatternView, fields: Seq<FieldView>)
    ensures
        !(fits(v, PatternView::list_of(item)) && fits(v, PatternView::Record(fields))),
{
}

/// Unwrapping is the identity on a document that has no envelope.
pub proof fn lemma_bare_of_unwrapped(v: JsonValue)
    requires
        v.member(envelope_key()) is None,
    ensures
        bare(v) == v,
{
}

/// An envelope stands for what it wraps.
pub proof fn lemma_bare_of_envelope(v: JsonValue, inner: JsonValue)
    requires
        v.member(envelope_key()) == Some(inner),
    ensures
        bare(v) == bare(inner),
{
    let members = v->Object_0;
    assert(holds_key_at(members, envelope_key(), key_position(members, envelope_key())));
}

/// What unwrapping gives has no envelope left.
pub proof fn lemma_bare_has_no_envelope(v: JsonValue)
    ensures
        bare(v).member(envelope_key()) is None,
    decreases v,
{
    match v {
        JsonValue::Object(members) => {
            if has_key(members, envelope_key()) {
                let at = key_position(members, envelope_key());
                assert(holds_key_at(members, envelope_key(), at));
                lemma_bare_has_no_envelope(members[at].value);
            }
        },
        _ => {},
    }
}

/// Unwrapping twice is unwrapping once.
pub proof fn lemma_bare_is_idempotent(v: JsonValue)
    ensures
        bare(bare(v)) == bare(v),
{
    lemma_bare_has_no_envelope(v);
    lemma_bare_of_unwrapped(bare(v));
}

/// True when the frame ends the loop whatever the handler does: a close
/// frame, or a text frame that is no JSON.
pub open spec fn fatal(frame: Frame) -> bool {
    match frame {
        Frame::Close(_) => true,
        Frame::Text(text) => parsed_text(text@) is Err,
        _ => false,
    }
}

/// True when none of the first `k` frames ends the loop by itself.
pub open spec fn quiet(frames: Seq<Frame>, k: int) -> bool {
    forall|j: int| 0 <= j < k ==> !fatal(#[trigger] frames[j])
}

/// True when the failure `e` is how the loop ends at place `k` of `frames`:
/// past the last frame the stream has ended; a close frame gives a
/// `PeerCloseError` that names the reason; a text frame that is no JSON gives
/// a `DecodeError`; and a `HandlerError` comes only over a frame that
/// delivered an event.
pub open spec fn ended_by(frames: Seq<Frame>, k: int, e: Error) -> bool {
    if k == frames.len() {
        e.is(ErrorKind::TransportError, "stream ended"@)
    } else {
        match frames[k] {
            Frame::Close(reason) => e.is(ErrorKind::PeerCloseError, "Disconnected "@ + reason@),
            Frame::Text(text) => match parsed_text(text@) {
                Err(message) => e.is(ErrorKind::DecodeError, handling_prefix() + message),
                Ok(document) => classification(bare(document)) is Some && e.kind
                    == ErrorKind::HandlerError,
            },
            _ => false,
        }
    }
}

/// A frame of no known shape is passed over: the handler is not called,
/// nothing fails, and the loop goes on.
pub proof fn lemma_unknown_frame_is_passed_over<H: EventHandler>(
    text: String,
    document: JsonValue,
    before: H,
    after: H,
    step: Step,
)
    requires
        parsed_text(text@) == Ok::<JsonValue, Seq<char>>(document),
        classification(bare(document)) is None,
        stepped(Frame::Text(text), before, after, step),
    ensures
        step is Continue,
        after == before,
{
}

/// A close frame ends the loop with a `PeerCloseError` that names the
/// reason, and the handler is not called.
pub proof fn lemma_close_frame_stops<H: EventHandler>(
    reason: String,
    before: H,
    after: H,
    step: Step,
)
    requires
        stepped(Frame::Close(reason), before, after, step),
    ensures
        step matches Step::Stop(e) && e.is(ErrorKind::PeerCloseError, "Disconnected "@ + reason@),
        after == before,
{
}

/// A failure of the handler ends the loop with a `HandlerError` that names
/// it, and nothing else gives a `HandlerError`: the loop stops over a frame
/// with that kind of failure only where the frame delivered an event.
pub proof fn lemma_stop_names_its_cause<H: EventHandler>(
    frames: Seq<Frame>,
    k: int,
    before: H,
    after: H,
    e: Error,
)
    requires
        0 <= k < frames.len(),
        stepped(frames[k], before, after, Step::Stop(e)),
    ensures
        ended_by(frames, k, e),
{
}

/// No frame that ends the loop by itself is passed over.
pub proof fn lemma_relayed_is_quiet<H: EventHandler>(
    frames: Seq<Frame>,
    k: int,
    before: H,
    after: H,
)
    requires
        0 <= k <= frames.len(),
        relayed(frames, k, before, after),
    ensures
        quiet(frames, k),
    decreases k,
{
    if k > 0 {
        let (mid, step) = choose|mid: H, step: Step|
            relayed(frames, k - 1, before, mid) && #[trigger] stepped(
                frames[k - 1],
                mid,
                after,
                step,
            ) && !(step is Stop);
        lemma_relayed_is_quiet(frames, k - 1, before, mid);
        assert(!fatal(frames[k - 1]));
    }
}

/// A close frame is never passed over, and the loop that ends at it ends
/// with a `PeerCloseError` that names the reason: where the frame at `c` is
/// a close frame, the loop has ended at `c` or before, and not for want of
/// frames.
pub proof fn lemma_close_ends_the_loop<H: EventHandler>(
    frames: Seq<Frame>,
    c: int,
    k: int,
    before: H,
    mid: H,
    after: H,
    e: Error,
)
    requires
        0 <= c < frames.len(),
        frames[c] is Close,
        0 <= k <= frames.len(),
        relayed(frames, k, before, mid),
        closed_by(frames, k, mid, after, e),
    ensures
        k <= c,
        e.kind != ErrorKind::TransportError,
        k == c && e.kind != ErrorKind::StoppedByCaller && e.kind != ErrorKind::NotConnectedError
            ==> after == mid && e.is(
            ErrorKind::PeerCloseError,
            "Disconnected "@ + frames[c]->Close_0@,
        ),
{
    lemma_relayed_is_quiet(frames, k, before, mid);
    if k > c {
        assert(!fatal(frames[c]));
    }
    if k < frames.len() && stepped(frames[k], mid, after, Step::Stop(e)) {
        lemma_stop_names_its_cause(frames, k, mid, after, e);
    }
}

} // verus!
