use product_service::handlers::{answer_exposition, prometheus_metrics};
use product_service::metrics::{push_decimal, render_gauge};
use product_service::registry::{render_families, rendering_from, ExpositionError};
use product_service::response::{Body, ContentType, Status};
use prometheus::proto::{Counter, Metric, MetricFamily, MetricType};

fn decimal(n: usize) -> String {
    let mut out = String::new();
    push_decimal(n, &mut out);
    out
}

#[test]
fn gauge_of_empty_catalog() {
    assert_eq!(
        render_gauge(0),
        "# HELP total_product_count The total number of products in the database\n# TYPE total_product_count gauge\ntotal_product_count 0\n"
    );
}

#[test]
fn gauge_has_three_lines_and_the_count_on_the_last() {
    let text = render_gauge(1234);
    let lines: Vec<&str> = text.lines().collect();
    assert_eq!(
        lines,
        vec![
            "# HELP total_product_count The total number of products in the database",
            "# TYPE total_product_count gauge",
            "total_product_count 1234",
        ]
    );
    assert!(text.ends_with('\n'));
}

#[test]
fn decimal_numerals_are_exact() {
    assert_eq!(decimal(0), "0");
    assert_eq!(decimal(7), "7");
    assert_eq!(decimal(9), "9");
    assert_eq!(decimal(10), "10");
    assert_eq!(decimal(11), "11");
    assert_eq!(decimal(99), "99");
    assert_eq!(decimal(100), "100");
    assert_eq!(decimal(1234567890), "1234567890");
    assert_eq!(decimal(usize::MAX), usize::MAX.to_string());
    for n in 0..2000usize {
        assert_eq!(decimal(n), n.to_string());
    }
}

#[test]
fn decimal_is_appended_to_what_is_there() {
    let mut out = "n=".to_string();
    push_decimal(305, &mut out);
    assert_eq!(out, "n=305");
}

struct Untyped {
    desc: prometheus::core::Desc,
}

impl prometheus::core::Collector for Untyped {
    fn desc(&self) -> Vec<&prometheus::core::Desc> {
        vec![&self.desc]
    }

    fn collect(&self) -> Vec<MetricFamily> {
        let mut metric = Metric::default();
        metric.set_counter(Counter::default());
        let mut family = MetricFamily::default();
        family.set_name("mystery".to_string());
        family.set_help("Of no declared kind".to_string());
        family.set_field_type(MetricType::UNTYPED);
        family.mut_metric().push(metric);
        vec![family]
    }
}

#[test]
fn process_registry_is_rendered_as_it_stands() {
    let empty = prometheus_metrics();
    assert_eq!(empty.status.code(), 200);
    assert!(matches!(empty.body, Body::Exposition(ref bytes) if bytes.is_empty()));

    let counter =
        prometheus::IntCounter::new("catalog_requests_total", "Requests served").unwrap();
    prometheus::register(Box::new(counter.clone())).unwrap();
    counter.inc_by(5);

    let response = prometheus_metrics();
    assert_eq!(response.status, Status::Success);
    assert_eq!(response.body.content_type(), Some(ContentType::Exposition));
    let text = match response.body {
        Body::Exposition(bytes) => String::from_utf8(bytes).unwrap(),
        other => panic!("expected an exposition, got {:?}", other),
    };
    assert_eq!(
        text,
        "# HELP catalog_requests_total Requests served\n\
         # TYPE catalog_requests_total counter\n\
         catalog_requests_total 5\n"
    );

    let desc = prometheus::core::Desc::new(
        "mystery".to_string(),
        "Of no declared kind".to_string(),
        Vec::new(),
        std::collections::HashMap::new(),
    )
    .unwrap();
    prometheus::register(Box::new(Untyped { desc })).unwrap();

    let response = prometheus_metrics();
    assert_eq!(response.status, Status::InternalServerError);
    match &response.body {
        Body::Text(text) => assert_eq!(text, "Metrics unavailable"),
        other => panic!("expected a message, got {:?}", other),
    }
}

fn family(name: &str, kind: MetricType, samples: usize) -> MetricFamily {
    let mut family = MetricFamily::default();
    family.set_name(name.to_string());
    family.set_help("Help".to_string());
    family.set_field_type(kind);
    for _ in 0..samples {
        let mut metric = Metric::default();
        let mut counter = Counter::default();
        counter.set_value(3.0);
        metric.set_counter(counter);
        family.mut_metric().push(metric);
    }
    family
}

#[test]
fn typed_families_are_rendered_by_the_encoder() {
    let rendered = render_families(&vec![family("served_total", MetricType::COUNTER, 1)]);
    let text = String::from_utf8(rendered.unwrap()).unwrap();
    assert_eq!(text, "# HELP served_total Help\n# TYPE served_total counter\nserved_total 3\n");
    assert_eq!(render_families(&Vec::new()), Ok(Vec::new()));
}

#[test]
fn untyped_family_is_refused_before_the_encoder_is_asked() {
    let families = vec![
        family("served_total", MetricType::COUNTER, 1),
        family("mystery", MetricType::UNTYPED, 1),
    ];
    assert_eq!(render_families(&families), Err(ExpositionError::UntypedFamily));
    assert_eq!(
        render_families(&vec![family("mystery", MetricType::UNTYPED, 0)]),
        Err(ExpositionError::UntypedFamily)
    );
}

#[test]
fn encoder_refusal_is_an_encoder_failure() {
    assert_eq!(
        render_families(&vec![family("served_total", MetricType::COUNTER, 0)]),
        Err(ExpositionError::Encoder)
    );
}

#[test]
fn rendering_from_keeps_the_bytes_or_names_the_encoder() {
    assert_eq!(rendering_from(Ok(b"up 1\n".to_vec())), Ok(b"up 1\n".to_vec()));
    assert_eq!(rendering_from(Ok(Vec::new())), Ok(Vec::new()));
    assert_eq!(
        rendering_from(Err(prometheus::Error::Msg("refused".to_string()))),
        Err(ExpositionError::Encoder)
    );
    assert_eq!(
        rendering_from(Err(prometheus::Error::AlreadyReg)),
        Err(ExpositionError::Encoder)
    );
}

#[test]
fn a_registry_of_its_own_is_rendered_from_what_it_gathers() {
    let registry = prometheus::Registry::new();
    let gauge = prometheus::IntGauge::new("open_requests", "Requests in flight").unwrap();
    registry.register(Box::new(gauge.clone())).unwrap();
    gauge.set(7);
    let rendered = render_families(&registry.gather()).unwrap();
    assert_eq!(
        String::from_utf8(rendered).unwrap(),
        "# HELP open_requests Requests in flight\n# TYPE open_requests gauge\nopen_requests 7\n"
    );
    let response = answer_exposition(render_families(&registry.gather()));
    assert_eq!(response.status.code(), 200);
    assert_eq!(response.body.content_type(), Some(ContentType::Exposition));
    assert_eq!(
        response.body.content_type().unwrap().header_value(),
        "text/plain; version=0.0.4; charset=utf-8"
    );
}
