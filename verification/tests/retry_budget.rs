use std::time::Duration;

use proxy_metrics::classify::ResponseClass;
use proxy_metrics::dst::{Addr, DstAddr, NameAddr};
use proxy_metrics::metrics::Class;
use proxy_metrics::retry::{NoRetry, ResponseSummary, Retry, retry_decision};
use tower_retry::budget::Budget;

fn failure_5xx() -> Vec<ResponseClass> {
    vec![ResponseClass { status_min: 500, status_max: 599, class: Class::Failure }]
}

fn plain(status: u16) -> ResponseSummary {
    ResponseSummary { status, pre_class: None }
}

#[test]
fn budget_exhaustion_denies_third_retry() {
    // Route retry timeout 100ms, budget capacity 2: three failing
    // responses back-to-back yield allow, allow, deny(Budget).
    let budget = Budget::new(Duration::from_secs(1), 2, 0.0);
    let retry = Retry::new(budget, failure_5xx(), 100);
    assert_eq!(retry.retry(5, &plain(500)), Ok(()));
    assert_eq!(retry.retry(6, &plain(503)), Ok(()));
    assert_eq!(retry.retry(7, &plain(500)), Err(NoRetry::Budget));
}

#[test]
fn deposit_replenishes_budget() {
    // No reserve at all: a failure is denied until a success deposits.
    let budget = Budget::new(Duration::from_secs(1), 0, 1.0);
    let retry = Retry::new(budget, failure_5xx(), 100);
    assert_eq!(retry.retry(1, &plain(500)), Err(NoRetry::Budget));
    assert_eq!(retry.retry(2, &plain(200)), Err(NoRetry::Success));
    assert_eq!(retry.retry(3, &plain(500)), Ok(()));
}

#[test]
fn timeout_denies_regardless_of_response() {
    let budget = Budget::new(Duration::from_secs(1), 2, 0.0);
    let retry = Retry::new(budget, failure_5xx(), 100);
    assert_eq!(retry.retry(101, &plain(500)), Err(NoRetry::Timeout));
    assert_eq!(retry.retry(101, &plain(200)), Err(NoRetry::Timeout));
    assert_eq!(
        retry.retry(u64::MAX, &ResponseSummary { status: 500, pre_class: Some(Class::Failure) }),
        Err(NoRetry::Timeout)
    );
    // The boundary itself is still in time.
    assert_eq!(retry.retry(100, &plain(200)), Err(NoRetry::Success));
}

#[test]
fn earlier_classification_wins() {
    // A class attached by an earlier layer overrides the route's rules.
    let budget = Budget::new(Duration::from_secs(1), 2, 0.0);
    let retry = Retry::new(budget, failure_5xx(), 100);
    let marked_ok = ResponseSummary { status: 500, pre_class: Some(Class::Success) };
    assert_eq!(retry.retry(1, &marked_ok), Err(NoRetry::Success));
    let marked_bad = ResponseSummary { status: 200, pre_class: Some(Class::Failure) };
    assert_eq!(retry.retry(2, &marked_bad), Ok(()));
}

#[test]
fn unmatched_response_counts_as_success() {
    let budget = Budget::new(Duration::from_secs(1), 2, 0.0);
    let retry = Retry::new(budget, failure_5xx(), 100);
    assert_eq!(retry.retry(1, &plain(404)), Err(NoRetry::Success));
}

#[test]
fn decision_table() {
    assert_eq!(retry_decision(true, true, true), Err(NoRetry::Timeout));
    assert_eq!(retry_decision(true, false, false), Err(NoRetry::Timeout));
    assert_eq!(retry_decision(false, false, false), Err(NoRetry::Success));
    assert_eq!(retry_decision(false, false, true), Err(NoRetry::Success));
    assert_eq!(retry_decision(false, true, true), Ok(()));
    assert_eq!(retry_decision(false, true, false), Err(NoRetry::Budget));
}

#[test]
fn route_exposes_retry_policy() {
    let dst = DstAddr::outbound(Addr::Name(NameAddr { authority: "web:80".to_string() }));
    let budget = Budget::new(Duration::from_secs(1), 2, 0.0);
    let with = dst.with_route(
        failure_5xx(),
        Some(Retry::new(budget, failure_5xx(), 250)),
    );
    let policy = with.can_retry().unwrap();
    assert_eq!(policy.timeout_millis, 250);
    assert_eq!(policy.retry(10, &plain(500)), Ok(()));

    let dst = DstAddr::outbound(Addr::Name(NameAddr { authority: "web:80".to_string() }));
    let without = dst.with_route(failure_5xx(), None);
    assert!(without.can_retry().is_none());
}
