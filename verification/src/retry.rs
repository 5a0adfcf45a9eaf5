//! The retry decision: given how long ago a request was issued and how its
//! response classifies, decide whether the caller may retry it, charging or
//! replenishing the shared time-boxed retry budget as a side effect.

use vstd::prelude::*;

use crate::classify::{ResponseClass, first_match};
use crate::metrics::Class;

verus! {

/// Why a retry was denied.
#[derive(Clone, Copy, Debug, PartialEq, Eq, Structural)]
pub enum NoRetry {
    /// The route's retry timeout elapsed before the response was evaluated.
    Timeout,
    /// The shared retry budget is exhausted.
    Budget,
    /// The exchange succeeded; there is nothing to retry.
    Success,
}

/// What the retry check reads of a response: its status, and a class that
/// an earlier layer may already have attached to it.
#[derive(Clone, Copy, Debug, PartialEq, Eq, Structural)]
pub struct ResponseSummary {
    pub status: u16,
    pub pre_class: Option<Class>,
}

/// Whether the response counts as a failure for retry purposes: a class
/// attached by an earlier layer wins; otherwise the route's rules are
/// tried in order and an unmatched response counts as success.
pub open spec fn spec_retry_failure(
    pre_class: Option<Class>,
    rules: Seq<ResponseClass>,
    status: u16,
) -> bool {
    match pre_class {
        Some(c) => c == Class::Failure,
        None => match first_match(rules, status) {
            Some(c) => c == Class::Failure,
            None => false,
        },
    }
}

/// The decision once the three facts are in hand: a timed-out check is
/// denied whatever the response held; a success deposits and is denied;
/// a failure is allowed exactly when the budget withdrawal went through.
pub open spec fn spec_retry_decision(
    timed_out: bool,
    is_failure: bool,
    withdrew: bool,
) -> Result<(), NoRetry> {
    if timed_out {
        Err(NoRetry::Timeout)
    } else if !is_failure {
        Err(NoRetry::Success)
    } else if withdrew {
        Ok(())
    } else {
        Err(NoRetry::Budget)
    }
}

/// Declares tower_retry::budget::Budget: the shared, time-boxed token
/// counter that bounds retries relative to recent successes. Opaque here;
/// it is only ever driven through the two calls below.
#[verifier::external_type_specification]
#[verifier::external_body]
pub struct ExBudget(tower_retry::budget::Budget);

/// Relies on tower_retry::budget::Budget::withdraw: it consumes one unit of
/// the shared budget and returns `Err(Overdrawn)` exactly when the balance
/// is insufficient. The balance decays with time, so whether a given call
/// succeeds depends on the clock; nothing beyond the shape of the outcome
/// can be promised of it.
#[verifier::external_body]
fn budget_withdraw(budget: &tower_retry::budget::Budget) -> bool {
    budget.withdraw().is_ok()
}

/// Relies on tower_retry::budget::Budget::deposit: it replenishes the
/// shared budget and never fails.
#[verifier::external_body]
fn budget_deposit(budget: &tower_retry::budget::Budget) {
    budget.deposit()
}

/// A route's retry policy: the shared budget, the classification rules
/// used for retry purposes, and the timeout bounding how long after
/// issuance a response may still be evaluated.
pub struct Retry {
    pub budget: tower_retry::budget::Budget,
    pub response_classes: Vec<ResponseClass>,
    pub timeout_millis: u64,
}

impl Retry {
    pub fn new(
        budget: tower_retry::budget::Budget,
        response_classes: Vec<ResponseClass>,
        timeout_millis: u64,
    ) -> (r: Retry)
        ensures
            r.budget == budget,
            r.response_classes == response_classes,
            r.timeout_millis == timeout_millis,
    {
        Retry { budget, response_classes, timeout_millis }
    }

    /// Decide whether the caller may retry, `elapsed_millis` after the
    /// request was issued. Every invocation past the timeout check mutates
    /// the shared budget - a withdrawal on failure, a deposit on success -
    /// which is what ties retry volume to the recent success ratio.
    pub fn retry(&self, elapsed_millis: u64, res: &ResponseSummary) -> (r: Result<(), NoRetry>)
        ensures
            elapsed_millis > self.timeout_millis ==> r == Err::<(), NoRetry>(NoRetry::Timeout),
            elapsed_millis <= self.timeout_millis
                && !spec_retry_failure(res.pre_class, self.response_classes@, res.status)
                ==> r == Err::<(), NoRetry>(NoRetry::Success),
            elapsed_millis <= self.timeout_millis
                && spec_retry_failure(res.pre_class, self.response_classes@, res.status)
                ==> (r == Ok::<(), NoRetry>(()) || r == Err::<(), NoRetry>(NoRetry::Budget)),
    {
        if elapsed_millis > self.timeout_millis {
            return Err(NoRetry::Timeout);
        }

        let is_failure = self.is_retry_failure(res);

        if is_failure {
            let withdrew = budget_withdraw(&self.budget);
            retry_decision(false, true, withdrew)
        } else {
            budget_deposit(&self.budget);
            retry_decision(false, false, false)
        }
    }

    /// Evaluate the failure question alone, without touching the budget.
    pub fn is_retry_failure(&self, res: &ResponseSummary) -> (r: bool)
        ensures
            r == spec_retry_failure(res.pre_class, self.response_classes@, res.status),
    {
        match res.pre_class {
            Some(c) => c == Class::Failure,
            None => {
                match crate::classify::first_match_in(&self.response_classes, res.status) {
                    Some(c) => c == Class::Failure,
                    None => false,
                }
            },
        }
    }
}

/// Map the three facts of a retry check onto the decision they determine.
pub fn retry_decision(timed_out: bool, is_failure: bool, withdrew: bool) -> (r: Result<(), NoRetry>)
    ensures
        r == spec_retry_decision(timed_out, is_failure, withdrew),
{
    if timed_out {
        Err(NoRetry::Timeout)
    } else if !is_failure {
        Err(NoRetry::Success)
    } else if withdrew {
        Ok(())
    } else {
        Err(NoRetry::Budget)
    }
}

} // verus!
