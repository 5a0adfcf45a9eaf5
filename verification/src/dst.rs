//! Destination keys and routes: the {address, direction} pair that
//! partitions metrics, and its binding to per-route classification rules
//! and an optional retry policy.

use vstd::prelude::*;

use crate::classify::{Classify, ResponseClass};
use crate::retry::Retry;

verus! {

/// Traffic direction, attached to the key at construction.
#[derive(Clone, Copy, Debug, PartialEq, Eq, Structural)]
pub enum Direction {
    In,
    Out,
}

/// A named destination, rendered as its authority text (host and port).
/// Construction from raw addresses happens at the caller.
pub struct NameAddr {
    pub authority: String,
}

/// A resolved destination: a DNS name, or a plain socket address rendered
/// as text.
pub enum Addr {
    Name(NameAddr),
    Socket(String),
}

/// The destination key by which metrics are partitioned: address plus
/// traffic direction. Never mutated after construction.
pub struct DstAddr {
    pub addr: Addr,
    pub direction: Direction,
}

/// What identifies a destination: which kind of address it is, its
/// rendered text, and the traffic direction.
pub ghost struct DstKey {
    pub named: bool,
    pub text: Seq<char>,
    pub direction: Direction,
}

impl Addr {
    pub open spec fn spec_text(self) -> Seq<char> {
        match self {
            Addr::Name(n) => n.authority@,
            Addr::Socket(s) => s@,
        }
    }

    pub open spec fn spec_named(self) -> bool {
        self is Name
    }

    /// The rendered address.
    pub fn text(&self) -> (r: &String)
        ensures
            r@ == self.spec_text(),
    {
        match self {
            Addr::Name(n) => &n.authority,
            Addr::Socket(s) => s,
        }
    }

    fn duplicate(&self) -> (r: Addr)
        ensures
            r.spec_text() == self.spec_text(),
            r.spec_named() == self.spec_named(),
    {
        match self {
            Addr::Name(n) => Addr::Name(NameAddr { authority: n.authority.clone() }),
            Addr::Socket(s) => Addr::Socket(s.clone()),
        }
    }
}

/// A character that may appear in a transport header value: tab, or any
/// character outside the control range other than delete.
pub open spec fn is_header_char(c: char) -> bool {
    c == '\t' || (c as u32 >= 32 && c as u32 != 127)
}

/// Text that renders as a valid transport header value.
pub open spec fn header_compatible(s: Seq<char>) -> bool {
    forall|i: int| 0 <= i < s.len() ==> is_header_char(#[trigger] s[i])
}

/// Declares http::header::HeaderValue: the validated header token handed
/// to the transport. Opaque here; it is only ever produced by the call
/// below.
#[verifier::external_type_specification]
#[verifier::external_body]
pub struct ExHeaderValue(http::header::HeaderValue);

/// Relies on http::header::HeaderValue::from_str: it succeeds exactly when
/// every byte of the string is permitted in a header value, which for text
/// means every character is a tab or lies outside the control range
/// (multi-byte characters encode entirely above it).
#[verifier::external_body]
fn header_value_from_str(s: &str) -> (r: Option<http::header::HeaderValue>)
    ensures
        r is Some <==> header_compatible(s@),
{
    http::header::HeaderValue::from_str(s).ok()
}

impl DstAddr {
    pub open spec fn key(self) -> DstKey {
        DstKey {
            named: self.addr.spec_named(),
            text: self.addr.spec_text(),
            direction: self.direction,
        }
    }

    /// A key for traffic leaving the proxy.
    pub fn outbound(addr: Addr) -> (r: DstAddr)
        ensures
            r.addr == addr,
            r.direction == Direction::Out,
    {
        DstAddr { addr, direction: Direction::Out }
    }

    /// A key for traffic entering the proxy.
    pub fn inbound(addr: Addr) -> (r: DstAddr)
        ensures
            r.addr == addr,
            r.direction == Direction::In,
    {
        DstAddr { addr, direction: Direction::In }
    }

    pub fn direction(&self) -> (r: Direction)
        ensures
            r == self.direction,
    {
        self.direction
    }

    pub fn addr(&self) -> (r: &Addr)
        ensures
            r == &self.addr,
    {
        &self.addr
    }

    /// Whether two keys name the same destination: same kind of address,
    /// same rendered text, same direction.
    pub fn same_target(&self, other: &DstAddr) -> (r: bool)
        ensures
            r <==> self.key() == other.key(),
    {
        if self.direction != other.direction {
            return false;
        }
        match (&self.addr, &other.addr) {
            (Addr::Name(a), Addr::Name(b)) => a.authority == b.authority,
            (Addr::Socket(a), Addr::Socket(b)) => a.eq(b),
            _ => false,
        }
    }

    /// An identical key, for storing in the registry while the caller
    /// keeps its own.
    pub fn duplicate(&self) -> (r: DstAddr)
        ensures
            r.key() == self.key(),
    {
        DstAddr { addr: self.addr.duplicate(), direction: self.direction }
    }

    /// The rendered destination, for display.
    pub fn text(&self) -> (r: &String)
        ensures
            r@ == self.addr.spec_text(),
    {
        self.addr.text()
    }

    /// The destination named by the key, when it is a name that an
    /// external resolver could look up.
    pub fn get_destination(&self) -> (r: Option<&NameAddr>)
        ensures
            match self.addr {
                Addr::Name(n) => r matches Some(x) && x.authority@ == n.authority@,
                Addr::Socket(_) => r is None,
            },
    {
        match &self.addr {
            Addr::Name(n) => Some(n),
            Addr::Socket(_) => None,
        }
    }

    /// Render the key for propagation to the next hop as a transport
    /// header value. `None` means the address cannot stand in a header,
    /// which callers treat as a broken invariant, not a runtime path.
    pub fn header_value(&self) -> (r: Option<http::header::HeaderValue>)
        ensures
            r is Some <==> header_compatible(self.addr.spec_text()),
    {
        header_value_from_str(self.addr.text().as_str())
    }

    /// The rendered key, validated as a transport header value. Unlike
    /// `header_value`, whose result is opaque here, this pins the content:
    /// what goes on the wire is the address text itself.
    pub fn header_text(&self) -> (r: Option<&String>)
        ensures
            r is Some <==> header_compatible(self.addr.spec_text()),
            r matches Some(s) ==> s@ == self.addr.spec_text(),
    {
        match header_value_from_str(self.addr.text().as_str()) {
            Some(_) => Some(self.addr.text()),
            None => None,
        }
    }

    /// Bind the key to the routing policy obtained for it: classification
    /// rules and, where the route is configured with a budget, a retry
    /// policy.
    pub fn with_route(self, response_classes: Vec<ResponseClass>, retry: Option<Retry>) -> (r: Route)
        ensures
            r.dst_addr == self,
            r.response_classes == response_classes,
            r.retry == retry,
    {
        Route { dst_addr: self, response_classes, retry }
    }
}

/// A destination key bound to its routing policy. Read-only after
/// construction.
pub struct Route {
    pub dst_addr: DstAddr,
    pub response_classes: Vec<ResponseClass>,
    pub retry: Option<Retry>,
}

impl Route {
    /// The classification strategy this route installs on its exchanges.
    pub fn classify(&self) -> (r: Classify)
        ensures
            r.rules@ == self.response_classes@,
    {
        let mut rules: Vec<ResponseClass> = Vec::new();
        let mut i: usize = 0;
        while i < self.response_classes.len()
            invariant
                i <= self.response_classes.len(),
                rules@ == self.response_classes@.take(i as int),
            decreases self.response_classes.len() - i,
        {
            rules.push(self.response_classes[i]);
            proof {
                assert(self.response_classes@.take(i + 1) =~= self.response_classes@.take(
                    i as int,
                ).push(self.response_classes@[i as int]));
            }
            i = i + 1;
        }
        proof {
            assert(self.response_classes@.take(self.response_classes@.len() as int)
                =~= self.response_classes@);
        }
        Classify::new(rules)
    }

    /// The route's retry policy, where one is configured.
    pub fn can_retry(&self) -> (r: Option<&Retry>)
        ensures
            r is Some <==> self.retry is Some,
            r matches Some(x) ==> self.retry matches Some(y) && x == &y,
    {
        match &self.retry {
            Some(t) => Some(t),
            None => None,
        }
    }
}

} // verus!
