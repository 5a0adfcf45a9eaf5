use proxy_metrics::body::RequestBody;
use proxy_metrics::classify::{Classify, ResponseClass, Trailers};
use proxy_metrics::dst::{Addr, Direction, DstAddr, NameAddr};
use proxy_metrics::measure::Layer;
use proxy_metrics::metrics::{Class, Metrics};
use proxy_metrics::registry::Registry;

fn success_2xx() -> Vec<ResponseClass> {
    vec![ResponseClass { status_min: 200, status_max: 299, class: Class::Success }]
}

fn named(authority: &str) -> Addr {
    Addr::Name(NameAddr { authority: authority.to_string() })
}

#[test]
fn empty_body_success_exchange() {
    // One request to destination D with an empty body; the route classifies
    // all 2xx as success; the response is a 200 with immediate trailers.
    let dst = DstAddr::outbound(named("web.example.com:80"));
    let route = dst.with_route(success_2xx(), None);

    let layer = Layer::new(Registry::new());
    let mut make = layer.bind();
    let measure = make.make(&route.dst_addr);
    let i = measure.metrics.unwrap();

    let classify = route.classify();
    let (req, fut) = measure.call(&mut make.registry.entries[i].1, true, Some(classify), 100);
    assert!(!req.armed);
    assert_eq!(make.registry.entries[i].1.total, 1);

    let mut rb = fut.on_response(200);
    rb.on_trailers(
        &mut make.registry.entries[i].1,
        &Trailers { grpc_status: None },
        150,
    );
    rb.finalize(&mut make.registry.entries[i].1, 200);

    let m = &make.registry.entries[i].1;
    assert_eq!(m.total, 1);
    assert_eq!(m.success.total, 1);
    assert_eq!(m.failure.total, 0);
    assert_eq!(m.unclassified.total, 0);
    // No data frame ever arrived, so the latency is recording time minus
    // stream-open time.
    assert_eq!(m.success.latency, vec![50]);
}

#[test]
fn first_byte_latency_attribution() {
    // A head-derived class is finalized by the first data frame, and the
    // latency recorded is first-byte time minus stream-open time, not
    // completion time.
    let classify = Classify::new(success_2xx());
    let fut = proxy_metrics::body::ResponseFuture {
        classify: Some(classify),
        armed: true,
        stream_open_at: 1000,
    };
    let mut rb = fut.on_response(204);
    let mut m = Metrics::new();
    rb.on_data(&mut m, 1030);
    assert_eq!(m.success.total, 1);
    assert_eq!(m.success.latency, vec![30]);
    // Finalizing the head class consumed the strategy: it cannot fire again.
    assert!(rb.classify.is_none());
    // Natural completion afterwards records nothing further.
    rb.on_trailers(&mut m, &Trailers { grpc_status: None }, 1999);
    rb.finalize(&mut m, 2000);
    assert_eq!(m.success.total, 1);
    assert_eq!(m.success.latency, vec![30]);
    assert_eq!(m.unclassified.total, 0);
}

#[test]
fn error_is_classified_once() {
    let classify = Classify::new(success_2xx());
    let fut = proxy_metrics::body::ResponseFuture {
        classify: Some(classify),
        armed: true,
        stream_open_at: 0,
    };
    let mut rb = fut.on_response(200);
    let mut m = Metrics::new();
    rb.on_error(&mut m, 25);
    assert_eq!(m.failure.total, 1);
    assert_eq!(m.failure.latency, vec![25]);
    // The guaranteed finalizer after the error path is a no-op.
    rb.finalize(&mut m, 90);
    assert_eq!(m.failure.total, 1);
    assert_eq!(m.success.total, 0);
    assert_eq!(m.unclassified.total, 0);
}

#[test]
fn abandonment_records_unclassified() {
    // The consumer drops the stream before any classification could run
    // and the route installed no strategy: the finalizer still records
    // the exchange, in the unclassified bucket.
    let fut = proxy_metrics::body::ResponseFuture {
        classify: None,
        armed: true,
        stream_open_at: 40,
    };
    let mut rb = fut.on_response(200);
    let mut m = Metrics::new();
    rb.finalize(&mut m, 100);
    assert_eq!(m.unclassified.total, 1);
    assert_eq!(m.unclassified.latency, vec![60]);
    // Idempotent: running the finalizer again mutates nothing.
    rb.finalize(&mut m, 500);
    assert_eq!(m.unclassified.total, 1);
    assert_eq!(m.unclassified.latency, vec![60]);
}

#[test]
fn grpc_status_in_trailers() {
    let mk = || proxy_metrics::body::ResponseFuture {
        classify: Some(Classify::new(Vec::new())),
        armed: true,
        stream_open_at: 0,
    };
    let mut m = Metrics::new();
    let mut rb = mk().on_response(200);
    rb.on_trailers(&mut m, &Trailers { grpc_status: Some(0) }, 1);
    assert_eq!(m.success.total, 1);
    let mut rb = mk().on_response(200);
    rb.on_trailers(&mut m, &Trailers { grpc_status: Some(7) }, 1);
    assert_eq!(m.failure.total, 1);
}

#[test]
fn request_body_counts_once() {
    let mut m = Metrics::new();
    let mut req = RequestBody { armed: true };
    req.on_eos(&mut m);
    assert_eq!(m.total, 1);
    // Polls past end-of-stream cannot double-count.
    req.on_eos(&mut m);
    assert_eq!(m.total, 1);
}

#[test]
fn total_counts_each_exchange() {
    // Several exchanges to the same destination: the aggregate's total
    // equals the number whose request body reached end-of-stream.
    let dst = DstAddr::outbound(named("api.example.com:8080"));
    let layer = Layer::new(Registry::new());
    let mut make = layer.bind();

    let first = make.make(&dst);
    let second = make.make(&dst);
    let i = first.metrics.unwrap();
    // Both services share the one registry entry for the destination.
    assert_eq!(second.metrics.unwrap(), i);
    assert_eq!(make.registry.entries.len(), 1);

    let (mut req_a, _fut_a) =
        first.call(&mut make.registry.entries[i].1, false, None, 0);
    let (mut req_b, _fut_b) =
        second.call(&mut make.registry.entries[i].1, false, None, 0);
    // One body never reaches end-of-stream (the exchange is abandoned).
    let (_req_c, _fut_c) =
        first.call(&mut make.registry.entries[i].1, false, None, 0);

    req_a.on_eos(&mut make.registry.entries[i].1);
    req_b.on_eos(&mut make.registry.entries[i].1);
    assert_eq!(make.registry.entries[i].1.total, 2);
}

#[test]
fn registry_partitions_by_key() {
    let mut registry = Registry::new();
    let out_web = DstAddr::outbound(named("web:80"));
    let in_web = DstAddr::inbound(named("web:80"));
    let out_sock = DstAddr::outbound(Addr::Socket("10.1.1.1:80".to_string()));

    let a = registry.get_or_create(&out_web);
    let b = registry.get_or_create(&in_web);
    let c = registry.get_or_create(&out_sock);
    assert_eq!(registry.entries.len(), 3);
    assert_ne!(a, b);
    assert_ne!(a, c);
    assert_eq!(registry.get_or_create(&out_web), a);
    assert_eq!(registry.entries.len(), 3);
}

#[test]
fn degraded_service_records_nothing() {
    // The degrade-gracefully path: a service built without a metrics sink
    // carries traffic but never touches the aggregate.
    let layer = Layer::new(Registry::new());
    let make = layer.bind();
    let measure = make.make_degraded();
    let mut scratch = Metrics::new();
    let (req, fut) = measure.call(&mut scratch, true, None, 0);
    assert_eq!(scratch.total, 0);
    assert!(!req.armed);
    let mut rb = fut.on_response(200);
    rb.finalize(&mut scratch, 10);
    assert_eq!(scratch.unclassified.total, 0);
}

#[test]
fn first_matching_rule_wins() {
    let rules = vec![
        ResponseClass { status_min: 200, status_max: 299, class: Class::Success },
        ResponseClass { status_min: 200, status_max: 599, class: Class::Failure },
    ];
    let classify = Classify::new(rules);
    assert_eq!(classify.start(250), Some(Class::Success));
    assert_eq!(classify.start(500), Some(Class::Failure));
    assert_eq!(classify.start(199), None);
}

#[test]
fn destination_key_accessors() {
    let dst = DstAddr::inbound(named("svc.cluster.local:8080"));
    assert_eq!(dst.direction(), Direction::In);
    assert_eq!(dst.text().as_str(), "svc.cluster.local:8080");
    assert!(dst.get_destination().is_some());
    let sock = DstAddr::outbound(Addr::Socket("127.0.0.1:4140".to_string()));
    assert_eq!(sock.direction(), Direction::Out);
    assert!(sock.get_destination().is_none());
}

#[test]
fn destination_header_value() {
    let dst = DstAddr::outbound(named("web.example.com:80"));
    let value = dst.header_value().unwrap();
    assert_eq!(value.to_str().unwrap(), "web.example.com:80");
    assert_eq!(dst.header_text().unwrap(), "web.example.com:80");
    let bad = DstAddr::outbound(named("web\nexample"));
    assert!(bad.header_value().is_none());
    assert!(bad.header_text().is_none());
}
