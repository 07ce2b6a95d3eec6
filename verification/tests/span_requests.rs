use graphql_extensions::extensions::attributes::{Attribute, AttributeKey, AttributeValue};
use graphql_extensions::extensions::context_tree::{EXECUTE_CTX, REQUEST_CTX, VALIDATION_CTX};
use graphql_extensions::extensions::telemetry::{OpenTelemetry, OpenTelemetryExtension};
use graphql_extensions::extensions::{
    ExtensionFactory, ResolveId, ResolveInfo, ServerError, ValidationResult,
};
use opentelemetry::global::BoxedTracer;
use opentelemetry::trace::noop::NoopTracer;
use opentelemetry::trace::{
    SpanContext, SpanId, SpanKind, TraceContextExt, TraceFlags, TraceId, TraceState,
};
use opentelemetry::Context;

fn untraced() -> OpenTelemetryExtension {
    OpenTelemetry::new(BoxedTracer::new(Box::new(NoopTracer::new()))).create()
}

fn context(span_id: u64) -> Context {
    Context::new().with_remote_span_context(SpanContext::new(
        TraceId::from(3u128),
        SpanId::from(span_id),
        TraceFlags::SAMPLED,
        true,
        TraceState::NONE,
    ))
}

fn id_of(cx: &Context) -> u64 {
    u64::from_be_bytes(cx.span().span_context().span_id().to_bytes())
}

fn text(key: AttributeKey, value: &str) -> Attribute {
    Attribute { key, value: AttributeValue::Text(value.to_string()) }
}

#[test]
fn request_span_is_a_root_named_request() {
    let extension = untraced();
    let request = extension.request_span();
    assert_eq!(request.name, "request");
    assert_eq!(request.kind, SpanKind::Server);
    assert!(request.attributes.is_none());
    assert!(request.parent.is_none());
}

#[test]
fn parse_span_needs_the_request() {
    let mut extension = untraced();
    assert!(extension.parse_span("{ a }", None).is_none());
    extension.enter_context(REQUEST_CTX, context(5));
    let request = extension.parse_span("{ a }", Some("{}".to_string())).unwrap();
    assert_eq!(request.name, "parse");
    assert_eq!(request.kind, SpanKind::Server);
    assert_eq!(
        request.attributes,
        Some(vec![text(AttributeKey::Source, "{ a }"), text(AttributeKey::Variables, "{}")])
    );
    assert_eq!(request.parent.map(id_of), Some(5));
}

#[test]
fn validation_span_needs_the_request() {
    let mut extension = untraced();
    assert!(extension.validation_span().is_none());
    extension.enter_context(REQUEST_CTX, context(5));
    let request = extension.validation_span().unwrap();
    assert_eq!(request.name, "validation");
    assert_eq!(request.kind, SpanKind::Server);
    assert!(request.attributes.is_none());
    assert_eq!(request.parent.map(id_of), Some(5));
}

#[test]
fn execution_span_does_without_the_request() {
    let mut extension = untraced();
    let rootless = extension.execution_span();
    assert_eq!(rootless.name, "execute");
    assert_eq!(rootless.kind, SpanKind::Server);
    assert!(rootless.attributes.is_none());
    assert!(rootless.parent.is_none());
    extension.enter_context(REQUEST_CTX, context(5));
    assert_eq!(extension.execution_span().parent.map(id_of), Some(5));
}

#[test]
fn resolve_span_hangs_below_the_parent_of_the_field() {
    let mut extension = untraced();
    extension.enter_context(EXECUTE_CTX, context(3));
    extension.enter_context(11, context(21));
    extension.enter_context(12, context(22));
    let top = ResolveInfo {
        resolve_id: ResolveId { parent: None, current: 7 },
        path_node: "c",
        parent_type: "Query",
        return_type: "C",
    };
    let below_a = ResolveInfo {
        resolve_id: ResolveId { parent: Some(1), current: 8 },
        path_node: "a.x",
        parent_type: "A",
        return_type: "Int",
    };
    let below_b = ResolveInfo {
        resolve_id: ResolveId { parent: Some(2), current: 9 },
        path_node: "b.y",
        parent_type: "B",
        return_type: "Int",
    };
    let orphan = ResolveInfo {
        resolve_id: ResolveId { parent: Some(4), current: 10 },
        path_node: "d.z",
        parent_type: "D",
        return_type: "Int",
    };
    assert_eq!(extension.resolve_span(&top).unwrap().parent.map(id_of), Some(3));
    let request = extension.resolve_span(&below_a).unwrap();
    assert_eq!(request.name, "a.x");
    assert_eq!(request.kind, SpanKind::Server);
    assert_eq!(
        request.attributes,
        Some(vec![
            Attribute { key: AttributeKey::ResolveId, value: AttributeValue::Int(8) },
            text(AttributeKey::ParentType, "A"),
            text(AttributeKey::ReturnType, "Int"),
        ])
    );
    assert_eq!(request.parent.map(id_of), Some(21));
    assert_eq!(extension.resolve_span(&below_b).unwrap().parent.map(id_of), Some(22));
    assert!(extension.resolve_span(&orphan).is_none());
}

#[test]
fn noop_tracer_still_fills_the_tree() {
    let mut extension = untraced();
    extension.start_under(None);
    assert!(extension.context(REQUEST_CTX).is_some());
    extension.parse_start_with("{ a }", None);
    assert!(extension.context(1).is_some());
}

#[test]
fn error_event_is_named_error_and_goes_to_execution() {
    let mut extension = untraced();
    let err = ServerError { message: "boom".to_string() };
    assert!(extension.error_event(&err).is_none());
    extension.enter_context(REQUEST_CTX, context(1));
    extension.enter_context(11, context(21));
    assert!(extension.error_event(&err).is_none());
    extension.enter_context(EXECUTE_CTX, context(3));
    let (target, name, attributes) = extension.error_event(&err).unwrap();
    assert_eq!(id_of(target), 3);
    assert_eq!(name, "error");
    assert_eq!(attributes, vec![text(AttributeKey::Error, "boom")]);
}

#[test]
fn validation_record_goes_to_the_context_of_validation() {
    let mut extension = untraced();
    let result = ValidationResult { complexity: 17, depth: 4 };
    assert!(extension.validation_record(&result).is_none());
    extension.enter_context(REQUEST_CTX, context(1));
    assert!(extension.validation_record(&result).is_none());
    extension.enter_context(VALIDATION_CTX, context(2));
    let (target, attributes) = extension.validation_record(&result).unwrap();
    assert_eq!(id_of(target), 2);
    assert_eq!(
        attributes,
        vec![
            Attribute { key: AttributeKey::Complexity, value: AttributeValue::Int(17) },
            Attribute { key: AttributeKey::Depth, value: AttributeValue::Int(4) },
        ]
    );
}
