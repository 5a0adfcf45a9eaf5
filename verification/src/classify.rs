//! Response classification: per-route rules that turn a response head,
//! trailers, an error, or bare end-of-stream into an outcome class.

use vstd::prelude::*;

use crate::metrics::Class;

verus! {

/// One per-route classification rule: responses whose status falls in
/// `status_min ..= status_max` get `class`. Rules are tried in order and
/// the first match wins.
#[derive(Clone, Copy, Debug, PartialEq, Eq, Structural)]
pub struct ResponseClass {
    pub status_min: u16,
    pub status_max: u16,
    pub class: Class,
}

impl ResponseClass {
    pub open spec fn matches(self, status: u16) -> bool {
        self.status_min <= status <= self.status_max
    }
}

/// The class of the first rule that matches the status, if any.
pub open spec fn first_match(rules: Seq<ResponseClass>, status: u16) -> Option<Class>
    decreases rules.len(),
{
    if rules.len() == 0 {
        None
    } else if rules[0].matches(status) {
        Some(rules[0].class)
    } else {
        first_match(rules.drop_first(), status)
    }
}

/// The class of the first rule that matches the status, searched in rule
/// order.
pub fn first_match_in(rules: &Vec<ResponseClass>, status: u16) -> (r: Option<Class>)
    ensures
        r == first_match(rules@, status),
{
    let mut i: usize = 0;
    proof {
        assert(rules@.skip(0) =~= rules@);
    }
    while i < rules.len()
        invariant
            i <= rules.len(),
            first_match(rules@, status) == first_match(rules@.skip(i as int), status),
        decreases rules.len() - i,
    {
        let rule = rules[i];
        if rule.status_min <= status && status <= rule.status_max {
            proof {
                assert(rules@.skip(i as int)[0] == rule);
            }
            return Some(rule.class);
        }
        proof {
            assert(rules@.skip(i as int).drop_first() =~= rules@.skip(i + 1));
        }
        i = i + 1;
    }
    proof {
        assert(rules@.skip(i as int).len() == 0);
    }
    None
}

/// Response trailers, reduced to what classification reads: the end-of-rpc
/// status code, when the peer sent one.
#[derive(Clone, Copy, Debug, PartialEq, Eq, Structural)]
pub struct Trailers {
    pub grpc_status: Option<u32>,
}

/// The class assigned at end-of-stream: a zero end-of-rpc status is a
/// success, a nonzero one a failure, and absent trailers (or trailers
/// without a status) default to success.
pub open spec fn eos_class(trailers: Option<Trailers>) -> Class {
    match trailers {
        Some(t) => match t.grpc_status {
            Some(code) => if code == 0 {
                Class::Success
            } else {
                Class::Failure
            },
            None => Class::Success,
        },
        None => Class::Success,
    }
}

/// A per-route classification strategy. It is consulted at most once per
/// exchange on each of its three paths: the response head, a transport
/// error, and end-of-stream.
pub struct Classify {
    pub rules: Vec<ResponseClass>,
}

impl Classify {
    pub fn new(rules: Vec<ResponseClass>) -> (r: Classify)
        ensures
            r.rules@ == rules@,
    {
        Classify { rules }
    }

    /// Classify the response head alone: the first matching rule's class,
    /// or nothing, leaving the decision to a later path.
    pub fn start(&self, status: u16) -> (r: Option<Class>)
        ensures
            r == first_match(self.rules@, status),
    {
        first_match_in(&self.rules, status)
    }

    /// Classify a transport error: always a failure.
    pub fn error(&self) -> (r: Class)
        ensures
            r == Class::Failure,
    {
        Class::Failure
    }

    /// Classify end-of-stream, with or without trailers.
    pub fn eos(&self, trailers: Option<&Trailers>) -> (r: Class)
        ensures
            r == eos_class(match trailers {
                Some(t) => Some(*t),
                None => None,
            }),
    {
        match trailers {
            Some(t) => match t.grpc_status {
                Some(code) => if code == 0 {
                    Class::Success
                } else {
                    Class::Failure
                },
                None => Class::Success,
            },
            None => Class::Success,
        }
    }
}

} // verus!
