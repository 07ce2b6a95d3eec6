//! The tracing backend: the types of the tracing API that the extension
//! carries, and the calls it makes into it. Nothing in this file is proved;
//! each item says what is taken on trust.

use async_graphql_parser::types::ExecutableDocument;
use async_graphql_value::Variables;
use opentelemetry::global::{BoxedSpan, BoxedTracer};
use opentelemetry::trace::{SpanBuilder, SpanKind, TraceContextExt};
use opentelemetry::{Context, KeyValue, Value};
use std::sync::Arc;
use vstd::prelude::*;

verus! {

/// A tracing context: the active span together with its ancestry. Opaque.
#[verifier::external_type_specification]
#[verifier::external_body]
pub struct ExContext(Context);

/// A tracer behind the API's own type erasure. Opaque.
#[verifier::external_type_specification]
#[verifier::external_body]
pub struct ExBoxedTracer(BoxedTracer);

/// A span started by a `BoxedTracer`. Opaque.
#[verifier::external_type_specification]
#[verifier::external_body]
pub struct ExBoxedSpan(BoxedSpan);

/// The description of a span that has not started yet. Opaque.
#[verifier::external_type_specification]
#[verifier::external_body]
pub struct ExSpanBuilder(SpanBuilder);

/// The role of a span in a trace.
#[verifier::external_type_specification]
pub struct ExSpanKind(SpanKind);

/// One attribute as the tracing API holds it. Opaque.
#[verifier::external_type_specification]
#[verifier::external_body]
pub struct ExKeyValue(KeyValue);

/// The value of an attribute as the tracing API holds it. Opaque.
#[verifier::external_type_specification]
#[verifier::external_body]
pub struct ExValue(Value);

/// The variables of a request. Opaque.
#[verifier::external_type_specification]
#[verifier::external_body]
pub struct ExVariables(Variables);

/// The name of a variable. Opaque.
#[verifier::external_type_specification]
#[verifier::external_body]
pub struct ExName(async_graphql_value::Name);

/// The value of a variable. Opaque.
#[verifier::external_type_specification]
#[verifier::external_body]
pub struct ExConstValue(async_graphql_value::ConstValue);

/// A parsed query document. Opaque.
#[verifier::external_type_specification]
#[verifier::external_body]
pub struct ExExecutableDocument(ExecutableDocument);

/// Why a value could not be written as JSON. Opaque.
#[verifier::external_type_specification]
#[verifier::external_body]
pub struct ExJsonError(serde_json::Error);

/// A spin lock around a value. Opaque.
#[verifier::external_type_specification]
#[verifier::external_body]
#[verifier::reject_recursive_types(T)]
#[verifier::reject_recursive_types(R)]
pub struct ExMutex<T: ?Sized, R>(spin::mutex::Mutex<T, R>);

/// How a spin lock waits. Opaque.
#[verifier::external_type_specification]
#[verifier::external_body]
pub struct ExSpin(spin::relax::Spin);

/// `SpanBuilder::from_name`: a builder for a span of the given name. Nothing
/// is claimed of the builder.
#[verifier::external_body]
pub(crate) fn span_builder(name: &str) -> SpanBuilder {
    SpanBuilder::from_name(name.to_string())
}

/// `SpanBuilder::with_kind`: the builder with its kind set. Nothing is
/// claimed of the builder.
#[verifier::external_body]
pub(crate) fn with_kind(builder: SpanBuilder, kind: SpanKind) -> SpanBuilder {
    builder.with_kind(kind)
}

/// `SpanBuilder::with_attributes`: the builder with its attributes set.
/// Nothing is claimed of the builder.
#[verifier::external_body]
pub(crate) fn with_attributes(builder: SpanBuilder, attributes: Vec<KeyValue>) -> SpanBuilder {
    builder.with_attributes(attributes)
}

/// `SpanBuilder::start`: starts the span that the builder describes, under
/// whatever context is current on this thread. Nothing is claimed of the
/// span.
#[verifier::external_body]
pub(crate) fn start(builder: SpanBuilder, tracer: &BoxedTracer) -> BoxedSpan {
    builder.start(tracer)
}

/// `SpanBuilder::start_with_context`: starts the span that the builder
/// describes, as a child of `parent`. Nothing is claimed of the span.
#[verifier::external_body]
pub(crate) fn start_with_context(
    builder: SpanBuilder,
    tracer: &BoxedTracer,
    parent: &Context,
) -> BoxedSpan {
    builder.start_with_context(tracer, parent)
}

/// `TraceContextExt::current_with_span`: the current context of this thread
/// with `span` as its active span. Nothing is claimed of the context.
#[verifier::external_body]
pub(crate) fn current_with_span(span: BoxedSpan) -> Context {
    Context::current_with_span(span)
}

/// `Context::attach`: makes a copy of `cx` the current context of this
/// thread. The guard that comes back is dropped at once, which puts the
/// former context back.
#[verifier::external_body]
pub(crate) fn attach(cx: &Context) {
    let _ = cx.clone().attach();
}

/// What `Value::from` makes of a text.
pub uninterp spec fn text_value_of(text: Seq<char>) -> Value;

/// `Value::from` on a `String`: the value that holds a copy of the text. It
/// depends on the text alone.
#[verifier::external_body]
pub(crate) fn text_value(text: &str) -> (value: Value)
    ensures
        value == text_value_of(text@),
{
    Value::from(text.to_string())
}

/// What `Value::from` makes of an integer.
pub uninterp spec fn int_value_of(number: i64) -> Value;

/// `Value::from` on an `i64`: the value that holds the integer. It depends
/// on the integer alone.
#[verifier::external_body]
pub(crate) fn int_value(number: i64) -> (value: Value)
    ensures
        value == int_value_of(number),
{
    Value::from(number)
}

/// What `KeyValue::new` makes of a key and a value.
pub uninterp spec fn key_value_of(key: Seq<char>, value: Value) -> KeyValue;

/// `KeyValue::new`: the attribute of that key and value. It depends on the
/// two alone.
#[verifier::external_body]
pub(crate) fn key_value(key: &'static str, value: Value) -> (attribute: KeyValue)
    ensures
        attribute == key_value_of(key@, value),
{
    KeyValue::new(key, value)
}

/// `SpanRef::set_attribute` on the span of `cx`: hands the attribute to the
/// span. Nothing is claimed.
#[verifier::external_body]
pub(crate) fn set_attribute(cx: &Context, attribute: KeyValue) {
    cx.span().set_attribute(attribute)
}

/// `SpanRef::add_event` on the span of `cx`: hands the event to the span.
/// Nothing is claimed.
#[verifier::external_body]
pub(crate) fn add_event(cx: &Context, name: &'static str, attributes: Vec<KeyValue>) {
    cx.span().add_event(name, attributes)
}

/// `serde_json::to_string`: the variables as JSON text, or the reason why
/// they could not be written. Nothing is claimed of either.
#[verifier::external_body]
pub(crate) fn to_json(variables: &Variables) -> Result<String, serde_json::Error> {
    serde_json::to_string(variables)
}

/// What `spin::Mutex::new` makes of an optional context.
pub uninterp spec fn lock_of(held: Option<Context>) -> spin::Mutex<Option<Context>>;

/// `spin::Mutex::new`: a lock that holds `held`. It depends on `held` alone.
#[verifier::external_body]
pub(crate) fn new_lock(held: Option<Context>) -> (lock: spin::Mutex<Option<Context>>)
    ensures
        lock == lock_of(held),
{
    spin::Mutex::new(held)
}

/// `spin::Mutex::lock`, then `Option::take` on what it guards: what the lock
/// held, leaving nothing behind. Other holders of the lock may have taken it
/// before, so nothing is claimed of what comes back.
#[verifier::external_body]
pub(crate) fn take_locked(lock: &spin::Mutex<Option<Context>>) -> Option<Context> {
    lock.lock().take()
}

/// `Arc::clone`: another handle to the same tracer.
#[verifier::external_body]
pub(crate) fn share(tracer: &Arc<BoxedTracer>) -> (shared: Arc<BoxedTracer>)
    ensures
        shared == *tracer,
{
    Arc::clone(tracer)
}

} // verus!
