//! Properties of the instrumentation, stated over the spec-level
//! transitions and proved once and for all.

use vstd::prelude::*;

use crate::body::{
    ResponseBodyV, latency_at, spec_finalize, spec_on_data, spec_on_error, spec_on_trailers,
    spec_record_class, spec_request_eos,
};
use crate::classify::Trailers;
use crate::metrics::{Class, MetricsV, bucket_of, classified_total};

verus! {

/// The aggregate after a set of exchanges, each contributing its request
/// body's end-of-stream event in some order; `armed` lists, in that order,
/// whether each exchange still held its metrics handle.
pub open spec fn apply_request_eos_all(m: MetricsV, armed: Seq<bool>) -> MetricsV
    decreases armed.len(),
{
    if armed.len() == 0 {
        m
    } else {
        apply_request_eos_all(spec_request_eos(armed[0], m), armed.drop_first())
    }
}

/// How many of the exchanges still held their handle.
pub open spec fn count_armed(armed: Seq<bool>) -> int
    decreases armed.len(),
{
    if armed.len() == 0 {
        0
    } else {
        (if armed[0] {
            1int
        } else {
            0int
        }) + count_armed(armed.drop_first())
    }
}

pub proof fn lemma_count_armed_bounds(armed: Seq<bool>)
    ensures
        0 <= count_armed(armed) <= armed.len(),
    decreases armed.len(),
{
    if armed.len() > 0 {
        lemma_count_armed_bounds(armed.drop_first());
    }
}

/// The total-request counter counts exchanges: after any sequence of
/// exchanges reaches end-of-stream, in whatever order they conclude, the
/// aggregate's total has grown by exactly the number of exchanges that
/// still held their handle - each counted once - and no class bucket has
/// moved. (The order of the events never shows in the result, which is
/// what makes the aggregate tolerant of arbitrary interleaving.)
pub proof fn lemma_total_counts_exchanges(m: MetricsV, armed: Seq<bool>)
    requires
        m.total + count_armed(armed) <= u64::MAX,
    ensures
        apply_request_eos_all(m, armed).total == m.total + count_armed(armed),
        apply_request_eos_all(m, armed).success == m.success,
        apply_request_eos_all(m, armed).failure == m.failure,
        apply_request_eos_all(m, armed).unclassified == m.unclassified,
    decreases armed.len(),
{
    if armed.len() > 0 {
        lemma_count_armed_bounds(armed.drop_first());
        lemma_total_counts_exchanges(spec_request_eos(armed[0], m), armed.drop_first());
    }
}

/// The observable events of one exchange's response stream, each stamped
/// with the time it happened. `Finalize` is the guaranteed teardown hook,
/// which runs on every exit path.
pub ghost enum RspEvent {
    Data(u64),
    Error(u64),
    Trailers(Trailers, u64),
    Finalize(u64),
}

pub open spec fn apply_rsp_event(
    rb: ResponseBodyV,
    m: MetricsV,
    e: RspEvent,
) -> (ResponseBodyV, MetricsV) {
    match e {
        RspEvent::Data(now) => spec_on_data(rb, m, now),
        RspEvent::Error(now) => spec_on_error(rb, m, now),
        RspEvent::Trailers(t, now) => spec_on_trailers(rb, m, t, now),
        RspEvent::Finalize(now) => spec_finalize(rb, m, now),
    }
}

/// The exchange state and aggregate after a whole trace of response
/// events, applied in order.
pub open spec fn apply_rsp_events(
    rb: ResponseBodyV,
    m: MetricsV,
    events: Seq<RspEvent>,
) -> (ResponseBodyV, MetricsV)
    decreases events.len(),
{
    if events.len() == 0 {
        (rb, m)
    } else {
        let (rb1, m1) = apply_rsp_event(rb, m, events[0]);
        apply_rsp_events(rb1, m1, events.drop_first())
    }
}

pub proof fn lemma_apply_rsp_events_snoc(
    rb: ResponseBodyV,
    m: MetricsV,
    events: Seq<RspEvent>,
    e: RspEvent,
)
    ensures
        apply_rsp_events(rb, m, events.push(e)) == apply_rsp_event(
            apply_rsp_events(rb, m, events).0,
            apply_rsp_events(rb, m, events).1,
            e,
        ),
    decreases events.len(),
{
    if events.len() == 0 {
        assert(events.push(e)[0] == e);
        assert(events.push(e).drop_first() =~= Seq::<RspEvent>::empty());
        assert(apply_rsp_events(rb, m, events) == (rb, m));
        let (rb1, m1) = apply_rsp_event(rb, m, e);
        assert(apply_rsp_events(rb1, m1, events.push(e).drop_first()) == (rb1, m1));
    } else {
        assert(events.push(e)[0] == events[0]);
        assert(events.push(e).drop_first() =~= events.drop_first().push(e));
        let (rb1, m1) = apply_rsp_event(rb, m, events[0]);
        lemma_apply_rsp_events_snoc(rb1, m1, events.drop_first(), e);
    }
}

/// With the metrics handle already consumed, no later event of the
/// exchange mutates the aggregate, and the handle never comes back.
pub proof fn lemma_disarmed_trace(rb: ResponseBodyV, m: MetricsV, events: Seq<RspEvent>)
    requires
        !rb.armed,
    ensures
        apply_rsp_events(rb, m, events).1 == m,
        !apply_rsp_events(rb, m, events).0.armed,
    decreases events.len(),
{
    if events.len() > 0 {
        let (rb1, m1) = apply_rsp_event(rb, m, events[0]);
        lemma_disarmed_trace(rb1, m1, events.drop_first());
    }
}

/// At most one classification per exchange, over any trace of response
/// events whatsoever: either the exchange still holds its handle and the
/// aggregate is untouched, or the handle is gone and exactly one
/// classification was recorded. Either way the total-request counter -
/// the request side's counter - never moves.
pub proof fn lemma_classified_at_most_once(rb: ResponseBodyV, m: MetricsV, events: Seq<RspEvent>)
    requires
        rb.armed,
        classified_total(m) < u64::MAX,
    ensures
        ({
            let (rb1, m1) = apply_rsp_events(rb, m, events);
            &&& rb1.armed ==> m1 == m
            &&& !rb1.armed ==> classified_total(m1) == classified_total(m) + 1
            &&& m1.total == m.total
        }),
    decreases events.len(),
{
    if events.len() > 0 {
        let (rb1, m1) = apply_rsp_event(rb, m, events[0]);
        if rb1.armed {
            lemma_classified_at_most_once(rb1, m1, events.drop_first());
        } else {
            lemma_disarmed_trace(rb1, m1, events.drop_first());
        }
    }
}

/// Exactly one classification per exchange: on any trace that ends with
/// the guaranteed finalizer - and teardown guarantees every trace does -
/// an exchange holding its handle records exactly one class (counting
/// the unclassified bucket): never zero, never more than one, whether
/// the stream completed normally, errored mid-stream, or was abandoned.
pub proof fn lemma_classified_exactly_once(rb: ResponseBodyV, m: MetricsV, events: Seq<RspEvent>)
    requires
        rb.armed,
        classified_total(m) < u64::MAX,
        events.len() > 0,
        events.last() is Finalize,
    ensures
        classified_total(apply_rsp_events(rb, m, events).1) == classified_total(m) + 1,
        !apply_rsp_events(rb, m, events).0.armed,
        apply_rsp_events(rb, m, events).1.total == m.total,
{
    let prefix = events.drop_last();
    assert(events =~= prefix.push(events.last()));
    lemma_apply_rsp_events_snoc(rb, m, prefix, events.last());
    lemma_classified_at_most_once(rb, m, prefix);
}

/// The finalizer is idempotent in effect: once some path has recorded
/// the exchange, running it again - or any other event - mutates the
/// aggregate no further.
pub proof fn lemma_finalize_idempotent(rb: ResponseBodyV, m: MetricsV, now: u64)
    requires
        !rb.armed,
    ensures
        spec_finalize(rb, m, now).1 == m,
{
}

/// Latency attribution: the latency recorded with a classification is
/// first-byte time minus stream-open time when a data frame was ever
/// received, and recording time minus stream-open time when none was;
/// recorded latencies are never negative (they are unsigned and the
/// subtraction never crosses zero under a monotone clock).
pub proof fn lemma_latency_recorded(
    rb: ResponseBodyV,
    m: MetricsV,
    class: Option<Class>,
    now: u64,
)
    requires
        rb.armed,
        now >= rb.stream_open_at,
        rb.first_byte_at matches Some(t) ==> t >= rb.stream_open_at,
    ensures
        bucket_of(spec_record_class(rb, m, class, now).1, class).latency == bucket_of(
            m,
            class,
        ).latency.push(latency_at(rb, now)),
        rb.first_byte_at matches Some(t) ==> latency_at(rb, now) == t - rb.stream_open_at,
        rb.first_byte_at is None ==> latency_at(rb, now) == now - rb.stream_open_at,
{
}

} // verus!
