//! The instrumentation middleware: a layer binds a registry, its factory
//! binds each new service to the registry entry for its target, and the
//! measuring service instruments every call's bodies.

use vstd::prelude::*;

use crate::body::{RequestBody, ResponseFuture};
use crate::classify::Classify;
use crate::dst::DstAddr;
use crate::metrics::{Metrics, spec_incr_total};
use crate::registry::Registry;

verus! {

/// A stack module that wraps service factories to record metrics.
pub struct Layer {
    pub registry: Registry,
}

/// Wraps services to record metrics: each made service shares the
/// registry entry of its target with every other service for that target.
pub struct Make {
    pub registry: Registry,
}

/// A middleware bound to one registry entry (by index), or to none when
/// instrumentation was unavailable at construction.
pub struct Measure {
    pub metrics: Option<usize>,
}

impl Layer {
    pub fn new(registry: Registry) -> (r: Layer)
        ensures
            r.registry == registry,
    {
        Layer { registry }
    }

    /// Bind the registry to an inner service factory's place in the stack.
    pub fn bind(self) -> (r: Make)
        ensures
            r.registry == self.registry,
    {
        Make { registry: self.registry }
    }
}

impl Make {
    /// Construct the instrumented service for a target: the registry entry
    /// for that key is found or created, and the new service is bound to
    /// it. The entry is shared, never duplicated.
    pub fn make(&mut self, target: &DstAddr) -> (r: Measure)
        requires
            old(self).registry.wf(),
        ensures
            final(self).registry.wf(),
            r.metrics matches Some(i) && i < final(self).registry.entries@.len()
                && final(self).registry.entries@[i as int].0.key() == target.key(),
            (exists|j: int|
                0 <= j < old(self).registry.entries@.len()
                    && (#[trigger] old(self).registry.entries@[j]).0.key() == target.key())
                ==> final(self).registry.entries@ == old(self).registry.entries@,
            !(exists|j: int|
                0 <= j < old(self).registry.entries@.len()
                    && (#[trigger] old(self).registry.entries@[j]).0.key() == target.key()) ==> {
                &&& final(self).registry.entries@.len() == old(self).registry.entries@.len() + 1
                &&& final(self).registry.entries@.take(old(self).registry.entries@.len() as int)
                    == old(self).registry.entries@
                &&& final(self).registry.entries@[old(self).registry.entries@.len() as int].1@
                    == crate::metrics::empty_metrics()
            },
    {
        let i: usize = self.registry.get_or_create(target);
        Measure { metrics: Some(i) }
    }

    /// A service with no metrics sink. This is the degrade-gracefully
    /// path: when the registry is unavailable (its lock cannot be
    /// acquired), instrumentation is skipped rather than failing traffic.
    pub fn make_degraded(&self) -> (r: Measure)
        ensures
            r.metrics is None,
    {
        Measure { metrics: None }
    }
}

impl Measure {
    /// Issue one call through the instrumented service. `m` is the bound
    /// registry entry's aggregate. If the request body is already at
    /// end-of-stream the total-request count is recorded here and now;
    /// otherwise the returned request body carries the armed handle. The
    /// returned future holds the caller's per-route classification
    /// strategy and the stream-open time.
    pub fn call(
        &self,
        m: &mut Metrics,
        body_is_end_stream: bool,
        classify: Option<Classify>,
        now: u64,
    ) -> (r: (RequestBody, ResponseFuture))
        ensures
            final(m)@ == if body_is_end_stream && self.metrics is Some {
                spec_incr_total(old(m)@)
            } else {
                old(m)@
            },
            r.0.armed == (self.metrics is Some && !body_is_end_stream),
            r.1.armed == (self.metrics is Some),
            r.1.stream_open_at == now,
            r.1.classify == classify,
    {
        let instrumented = self.metrics.is_some();
        let mut req_armed = instrumented;
        if body_is_end_stream {
            if req_armed {
                m.incr_total();
                req_armed = false;
            }
        }
        let request_body = RequestBody { armed: req_armed };
        let future = ResponseFuture { classify, armed: instrumented, stream_open_at: now };
        (request_body, future)
    }
}

} // verus!
