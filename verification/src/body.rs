//! Instrumented request and response body state. Each lifecycle event of an
//! exchange (first data frame, trailers, transport error, end-of-stream,
//! teardown) is a transition that updates the shared metrics aggregate.
//!
//! The take-once guard: `armed` says whether this exchange still holds its
//! metrics handle. Every recording path clears it first, so however the
//! stream ends - trailers, error, or abandonment - at most one
//! classification is recorded per exchange.

use vstd::prelude::*;

use crate::classify::{Classify, Trailers, eos_class, first_match};
use crate::metrics::{Class, Metrics, MetricsV, spec_incr_total, spec_record};

verus! {

/// Decorates the request body stream. Its one duty: bump the aggregate's
/// total-request counter exactly once, at the poll that yields the body's
/// true end-of-stream signal.
pub struct RequestBody {
    pub armed: bool,
}

/// The total-request counter after a request body reaches end-of-stream.
pub open spec fn spec_request_eos(armed: bool, m: MetricsV) -> MetricsV {
    if armed {
        spec_incr_total(m)
    } else {
        m
    }
}

impl RequestBody {
    /// Called on the poll that yields the final guaranteed-empty result.
    /// Counting consumes the handle, so polls past end-of-stream cannot
    /// double-count; teardown records nothing.
    pub fn on_eos(&mut self, m: &mut Metrics)
        ensures
            final(self).armed == false,
            final(m)@ == spec_request_eos(old(self).armed, old(m)@),
    {
        if self.armed {
            self.armed = false;
            m.incr_total();
        }
    }
}

/// State carried from issuing the call until the response head arrives:
/// the per-route classification strategy, the metrics handle, and the
/// stream-open timestamp.
pub struct ResponseFuture {
    pub classify: Option<Classify>,
    pub armed: bool,
    pub stream_open_at: u64,
}

/// Decorates the response body stream and classifies the exchange exactly
/// once, on whichever path concludes it.
pub struct ResponseBody {
    pub classify: Option<Classify>,
    pub class_at_first_byte: Option<Class>,
    pub armed: bool,
    pub stream_open_at: u64,
    pub first_byte_at: Option<u64>,
}

#[verifier::ext_equal]
pub ghost struct ResponseBodyV {
    pub classify: Option<Seq<crate::classify::ResponseClass>>,
    pub class_at_first_byte: Option<Class>,
    pub armed: bool,
    pub stream_open_at: u64,
    pub first_byte_at: Option<u64>,
}

impl View for ResponseBody {
    type V = ResponseBodyV;

    open spec fn view(&self) -> ResponseBodyV {
        ResponseBodyV {
            classify: match self.classify {
                Some(c) => Some(c.rules@),
                None => None,
            },
            class_at_first_byte: self.class_at_first_byte,
            armed: self.armed,
            stream_open_at: self.stream_open_at,
            first_byte_at: self.first_byte_at,
        }
    }
}

/// The latency an exchange records: first-byte time if a data frame ever
/// arrived, otherwise the time of finalization, minus stream-open time.
pub open spec fn latency_at(rb: ResponseBodyV, now: u64) -> u64 {
    let t = match rb.first_byte_at {
        Some(t) => t,
        None => now,
    };
    if t >= rb.stream_open_at {
        (t - rb.stream_open_at) as u64
    } else {
        0
    }
}

/// Recording a class consumes the metrics handle; with the handle already
/// gone, nothing changes.
pub open spec fn spec_record_class(
    rb: ResponseBodyV,
    m: MetricsV,
    class: Option<Class>,
    now: u64,
) -> (ResponseBodyV, MetricsV) {
    if rb.armed {
        (ResponseBodyV { armed: false, ..rb }, spec_record(m, class, latency_at(rb, now)))
    } else {
        (rb, m)
    }
}

/// A data frame: stamp the first-byte time, and if a head-derived class is
/// pending, finalize it now - recording it and clearing the classification
/// strategy so no later path can consult it again.
pub open spec fn spec_on_data(rb: ResponseBodyV, m: MetricsV, now: u64) -> (ResponseBodyV, MetricsV) {
    let rb1 = if rb.first_byte_at is None {
        ResponseBodyV { first_byte_at: Some(now), ..rb }
    } else {
        rb
    };
    match rb1.class_at_first_byte {
        Some(c) => spec_record_class(
            ResponseBodyV { class_at_first_byte: None, classify: None, ..rb1 },
            m,
            Some(c),
            now,
        ),
        None => (rb1, m),
    }
}

/// A transport error: the strategy's error path classifies it a failure,
/// which is recorded before the error propagates.
pub open spec fn spec_on_error(rb: ResponseBodyV, m: MetricsV, now: u64) -> (ResponseBodyV, MetricsV) {
    let class: Option<Class> = match rb.classify {
        Some(_) => Some(Class::Failure),
        None => None,
    };
    spec_record_class(
        ResponseBodyV { classify: None, class_at_first_byte: None, ..rb },
        m,
        class,
        now,
    )
}

/// Trailers: the strategy evaluates them to the final class.
pub open spec fn spec_on_trailers(
    rb: ResponseBodyV,
    m: MetricsV,
    trailers: Trailers,
    now: u64,
) -> (ResponseBodyV, MetricsV) {
    let class: Option<Class> = match rb.classify {
        Some(_) => Some(eos_class(Some(trailers))),
        None => None,
    };
    spec_record_class(ResponseBodyV { classify: None, ..rb }, m, class, now)
}

/// Teardown: the guaranteed finalizer fires the strategy's no-trailers
/// path, so an abandoned exchange is still recorded.
pub open spec fn spec_finalize(rb: ResponseBodyV, m: MetricsV, now: u64) -> (ResponseBodyV, MetricsV) {
    let class: Option<Class> = match rb.classify {
        Some(_) => Some(eos_class(None)),
        None => None,
    };
    spec_record_class(ResponseBodyV { classify: None, ..rb }, m, class, now)
}

impl ResponseFuture {
    /// The response head arrived: give the strategy its look at the head
    /// and hand the exchange state to the response body wrapper.
    pub fn on_response(self, status: u16) -> (rb: ResponseBody)
        ensures
            rb@.classify == (match self.classify {
                Some(c) => Some::<Seq<crate::classify::ResponseClass>>(c.rules@),
                None => None,
            }),
            rb@.class_at_first_byte == (match self.classify {
                Some(c) => first_match(c.rules@, status),
                None => None::<Class>,
            }),
            rb@.armed == self.armed,
            rb@.stream_open_at == self.stream_open_at,
            rb@.first_byte_at is None,
    {
        let class_at_first_byte = match &self.classify {
            Some(c) => c.start(status),
            None => None,
        };
        ResponseBody {
            classify: self.classify,
            class_at_first_byte,
            armed: self.armed,
            stream_open_at: self.stream_open_at,
            first_byte_at: None,
        }
    }
}

impl ResponseBody {
    fn record_class(&mut self, m: &mut Metrics, class: Option<Class>, now: u64)
        ensures
            final(self)@ == spec_record_class(old(self)@, old(m)@, class, now).0,
            final(m)@ == spec_record_class(old(self)@, old(m)@, class, now).1,
    {
        if self.armed {
            self.armed = false;
            let t: u64 = match self.first_byte_at {
                Some(t) => t,
                None => now,
            };
            let latency: u64 = if t >= self.stream_open_at {
                t - self.stream_open_at
            } else {
                0
            };
            m.record(class, latency);
        }
    }

    /// A data frame was delivered. A pending head-derived class is
    /// finalized here: recorded, with the strategy cleared so it cannot
    /// fire again on trailers or teardown.
    pub fn on_data(&mut self, m: &mut Metrics, now: u64)
        ensures
            final(self)@ == spec_on_data(old(self)@, old(m)@, now).0,
            final(m)@ == spec_on_data(old(self)@, old(m)@, now).1,
    {
        if self.first_byte_at.is_none() {
            self.first_byte_at = Some(now);
        }
        if let Some(c) = self.class_at_first_byte {
            self.class_at_first_byte = None;
            self.classify = None;
            self.record_class(m, Some(c), now);
        }
    }

    /// The stream surfaced a transport error; metrics are recorded before
    /// the caller propagates it unchanged.
    pub fn on_error(&mut self, m: &mut Metrics, now: u64)
        ensures
            final(self)@ == spec_on_error(old(self)@, old(m)@, now).0,
            final(m)@ == spec_on_error(old(self)@, old(m)@, now).1,
    {
        self.class_at_first_byte = None;
        let class = match &self.classify {
            Some(c) => Some(c.error()),
            None => None,
        };
        self.classify = None;
        self.record_class(m, class, now);
    }

    /// Trailers arrived.
    pub fn on_trailers(&mut self, m: &mut Metrics, trailers: &Trailers, now: u64)
        ensures
            final(self)@ == spec_on_trailers(old(self)@, old(m)@, *trailers, now).0,
            final(m)@ == spec_on_trailers(old(self)@, old(m)@, *trailers, now).1,
    {
        let class = match &self.classify {
            Some(c) => Some(c.eos(Some(trailers))),
            None => None,
        };
        self.classify = None;
        self.record_class(m, class, now);
    }

    /// The guaranteed finalizer: must run on every exit path once nothing
    /// else concluded the exchange (the caller's teardown hook).
    pub fn finalize(&mut self, m: &mut Metrics, now: u64)
        ensures
            final(self)@ == spec_finalize(old(self)@, old(m)@, now).0,
            final(m)@ == spec_finalize(old(self)@, old(m)@, now).1,
    {
        let class = match &self.classify {
            Some(c) => Some(c.eos(None)),
            None => None,
        };
        self.classify = None;
        self.record_class(m, class, now);
    }
}

} // verus!
