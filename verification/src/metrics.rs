//! The per-destination metrics aggregate: a total-request counter, one
//! bucket of counters per outcome class, and an unclassified bucket.

use vstd::prelude::*;

verus! {

/// Outcome label assigned to one request/response exchange.
#[derive(Clone, Copy, Debug, PartialEq, Eq, Structural)]
pub enum Class {
    Success,
    Failure,
}

/// Counters saturate at the top of `u64` rather than wrap.
pub open spec fn sat_incr(x: u64) -> u64 {
    if x == u64::MAX {
        x
    } else {
        (x + 1) as u64
    }
}

/// Counters for one outcome class: how many exchanges ended in it, and the
/// first-byte latency observed for each of them, in order of recording.
pub struct ClassMetrics {
    pub total: u64,
    pub latency: Vec<u64>,
}

/// The aggregate kept per destination. `total` counts requests whose body
/// reached end-of-stream; each exchange's outcome lands in exactly one of
/// the three class buckets.
pub struct Metrics {
    pub total: u64,
    pub success: ClassMetrics,
    pub failure: ClassMetrics,
    pub unclassified: ClassMetrics,
}

/// Mathematical model of one class bucket.
pub ghost struct ClassMetricsV {
    pub total: u64,
    pub latency: Seq<u64>,
}

/// Mathematical model of the aggregate.
pub ghost struct MetricsV {
    pub total: u64,
    pub success: ClassMetricsV,
    pub failure: ClassMetricsV,
    pub unclassified: ClassMetricsV,
}

impl View for ClassMetrics {
    type V = ClassMetricsV;

    open spec fn view(&self) -> ClassMetricsV {
        ClassMetricsV { total: self.total, latency: self.latency@ }
    }
}

impl View for Metrics {
    type V = MetricsV;

    open spec fn view(&self) -> MetricsV {
        MetricsV {
            total: self.total,
            success: self.success@,
            failure: self.failure@,
            unclassified: self.unclassified@,
        }
    }
}

pub open spec fn empty_class_metrics() -> ClassMetricsV {
    ClassMetricsV { total: 0, latency: Seq::empty() }
}

pub open spec fn empty_metrics() -> MetricsV {
    MetricsV {
        total: 0,
        success: empty_class_metrics(),
        failure: empty_class_metrics(),
        unclassified: empty_class_metrics(),
    }
}

/// The aggregate after the total-request counter is bumped once.
pub open spec fn spec_incr_total(m: MetricsV) -> MetricsV {
    MetricsV { total: sat_incr(m.total), ..m }
}

pub open spec fn spec_record_bucket(b: ClassMetricsV, latency: u64) -> ClassMetricsV {
    ClassMetricsV { total: sat_incr(b.total), latency: b.latency.push(latency) }
}

/// The bucket a classification lands in: a class's own bucket, or the
/// unclassified bucket when the exchange produced no class.
pub open spec fn bucket_of(m: MetricsV, class: Option<Class>) -> ClassMetricsV {
    match class {
        Some(Class::Success) => m.success,
        Some(Class::Failure) => m.failure,
        None => m.unclassified,
    }
}

/// The aggregate after one classification is recorded with the given latency.
pub open spec fn spec_record(m: MetricsV, class: Option<Class>, latency: u64) -> MetricsV {
    match class {
        Some(Class::Success) => MetricsV { success: spec_record_bucket(m.success, latency), ..m },
        Some(Class::Failure) => MetricsV { failure: spec_record_bucket(m.failure, latency), ..m },
        None => MetricsV { unclassified: spec_record_bucket(m.unclassified, latency), ..m },
    }
}

/// How many classifications the aggregate holds, over all three buckets.
pub open spec fn classified_total(m: MetricsV) -> int {
    m.success.total + m.failure.total + m.unclassified.total
}

impl ClassMetrics {
    pub fn new() -> (r: ClassMetrics)
        ensures
            r@ == empty_class_metrics(),
    {
        ClassMetrics { total: 0, latency: Vec::new() }
    }
}

impl Metrics {
    pub fn new() -> (r: Metrics)
        ensures
            r@ == empty_metrics(),
    {
        Metrics {
            total: 0,
            success: ClassMetrics::new(),
            failure: ClassMetrics::new(),
            unclassified: ClassMetrics::new(),
        }
    }

    /// Bump the total-request counter once.
    pub fn incr_total(&mut self)
        ensures
            final(self)@ == spec_incr_total(old(self)@),
    {
        if self.total < u64::MAX {
            self.total = self.total + 1;
        }
    }

    /// Record one classification with its first-byte latency.
    pub fn record(&mut self, class: Option<Class>, latency: u64)
        ensures
            final(self)@ == spec_record(old(self)@, class, latency),
    {
        match class {
            Some(Class::Success) => {
                if self.success.total < u64::MAX {
                    self.success.total = self.success.total + 1;
                }
                self.success.latency.push(latency);
            },
            Some(Class::Failure) => {
                if self.failure.total < u64::MAX {
                    self.failure.total = self.failure.total + 1;
                }
                self.failure.latency.push(latency);
            },
            None => {
                if self.unclassified.total < u64::MAX {
                    self.unclassified.total = self.unclassified.total + 1;
                }
                self.unclassified.latency.push(latency);
            },
        }
    }
}

} // verus!
