//! The tracing extension: it mirrors the phases and the field resolutions of
//! a request as a hierarchy of tracing contexts.

use crate::extensions::attributes::{
    error_attributes, error_attributes_of, parse_attributes, parse_attributes_of,
    resolve_attributes, resolve_attributes_of, text_of, to_key_value, to_key_values,
    validation_attributes, validation_attributes_of, views, Attribute,
};
use crate::extensions::backend::{
    add_event, attach, current_with_span, lock_of, new_lock, set_attribute, share, span_builder,
    start, start_with_context, take_locked, to_json, with_attributes, with_kind,
};
use crate::extensions::context_tree::{
    lookup, parent_ctx_id, parent_slot, resolve_ctx_id, resolve_slot, step, Event, EXECUTE_CTX,
    PARSE_CTX, REQUEST_CTX, VALIDATION_CTX,
};
use crate::extensions::span_request::{server_span, SpanRequest};
use crate::extensions::{
    Extension, ExtensionContext, ExtensionFactory, ResolveId, ResolveInfo, ServerError,
    ValidationResult,
};
use async_graphql_parser::types::ExecutableDocument;
use async_graphql_value::Variables;
use opentelemetry::global::BoxedTracer;
use opentelemetry::trace::SpanKind;
use opentelemetry::Context;
use std::collections::HashMap;
use std::sync::Arc;
use vstd::prelude::*;

verus! {

broadcast use vstd::std_specs::hash::group_hash_axioms;

/// OpenTelemetry extension configuration for each request.
pub struct OpenTelemetryConfig {
    /// Use a context as the parent node of the entire query.
    parent: spin::Mutex<Option<Context>>,
}

impl OpenTelemetryConfig {
    /// The configuration that was made to supply `parent`.
    pub closed spec fn supplying(parent: Option<Context>) -> OpenTelemetryConfig {
        OpenTelemetryConfig { parent: lock_of(parent) }
    }

    /// Use a context as the parent of the entire query.
    pub fn parent_context(self, cx: Context) -> (config: OpenTelemetryConfig)
        ensures
            config == OpenTelemetryConfig::supplying(Some(cx)),
    {
        OpenTelemetryConfig { parent: new_lock(Some(cx)) }
    }

    /// Takes the parent context out of the configuration. It comes at most
    /// once: whoever asks later finds nothing.
    pub fn take_parent(&self) -> Option<Context> {
        take_locked(&self.parent)
    }
}

impl Default for OpenTelemetryConfig {
    fn default() -> (config: OpenTelemetryConfig)
        ensures
            config == OpenTelemetryConfig::supplying(None),
    {
        OpenTelemetryConfig { parent: new_lock(None) }
    }
}

/// OpenTelemetry extension
pub struct OpenTelemetry {
    tracer: Arc<BoxedTracer>,
}

impl OpenTelemetry {
    /// The tracer that the extensions of this factory start their spans with.
    pub closed spec fn tracer(&self) -> BoxedTracer {
        *self.tracer
    }

    /// Use `tracer` to create an OpenTelemetry extension.
    pub fn new(tracer: BoxedTracer) -> (factory: OpenTelemetry)
        ensures
            factory.tracer() == tracer,
    {
        OpenTelemetry { tracer: Arc::new(tracer) }
    }

}

impl ExtensionFactory for OpenTelemetry {
    type Instance = OpenTelemetryExtension;

    /// A fresh extension instance for one request: it shares the tracer of
    /// the factory and holds no context yet.
    fn create(&self) -> (extension: OpenTelemetryExtension)
        ensures
            extension@ == Map::<u128, Context>::empty(),
            extension.tracer() == self.tracer(),
    {
        OpenTelemetryExtension { tracer: share(&self.tracer), contexts: HashMap::new() }
    }
}

/// The tracing extension of one request.
pub struct OpenTelemetryExtension {
    tracer: Arc<BoxedTracer>,
    contexts: HashMap<u128, Context>,
}

impl View for OpenTelemetryExtension {
    type V = Map<u128, Context>;

    /// The context tree: which slot holds which context.
    closed spec fn view(&self) -> Map<u128, Context> {
        self.contexts@
    }
}

impl OpenTelemetryExtension {
    /// The tracer that this extension starts its spans with.
    pub closed spec fn tracer(&self) -> BoxedTracer {
        *self.tracer
    }

    /// The tree holds finitely many contexts, so that they can be counted.
    pub proof fn tree_is_finite(&self)
        ensures
            self@.dom().finite(),
    {
        vstd::std_specs::hash::axiom_hashmap_view_finite_dom(self.contexts);
    }

    /// The context kept at `id`, if there is one. The tree is left as it is.
    pub fn context(&self, id: u128) -> (found: Option<&Context>)
        ensures
            found == match lookup(self@, id) {
                Some(cx) => Some(&cx),
                None => None,
            },
    {
        self.contexts.get(&id)
    }

    /// Marks `cx` as the active context and keeps it at `id`. A context
    /// that was kept there before is replaced, and not closed. The mark
    /// lasts for the call only: the caller finds its own context current
    /// again.
    pub fn enter_context(&mut self, id: u128, cx: Context)
        ensures
            final(self)@ == old(self)@.insert(id, cx),
            final(self).tracer() == old(self).tracer(),
    {
        attach(&cx);
        self.contexts.insert(id, cx);
    }

    /// Removes the context kept at `id` and returns it, after marking it
    /// active once more, again for the call only. Where nothing is kept at
    /// `id`, nothing happens.
    pub fn exit_context(&mut self, id: u128) -> (left: Option<Context>)
        ensures
            left == lookup(old(self)@, id),
            final(self)@ == old(self)@.remove(id),
            final(self).tracer() == old(self).tracer(),
    {
        if let Some(cx) = self.contexts.remove(&id) {
            attach(&cx);
            Some(cx)
        } else {
            None
        }
    }
}

impl OpenTelemetryExtension {
    /// The context under which the resolution `id` starts its span: that of
    /// the enclosing resolution, or that of the execution phase for a field
    /// at the top of the query. None where that context is not in the tree.
    pub fn resolve_parent(&self, id: &ResolveId) -> (found: Option<&Context>)
        ensures
            found == match lookup(self@, parent_slot(*id)) {
                Some(cx) => Some(&cx),
                None => None,
            },
    {
        self.context(parent_ctx_id(id))
    }

    /// The context on which an error is recorded: that of the execution
    /// phase, whichever field failed. None where execution is not traced.
    pub fn error_context(&self) -> (found: Option<&Context>)
        ensures
            found == match lookup(self@, EXECUTE_CTX) {
                Some(cx) => Some(&cx),
                None => None,
            },
    {
        self.context(EXECUTE_CTX)
    }

    /// What an error leaves in the trace: an event named `error` that
    /// carries the message, on the context that `error_context` finds. None
    /// where execution is not traced.
    pub fn error_event(&self, err: &ServerError) -> (event: Option<
        (&Context, &'static str, Vec<Attribute>),
    >)
        ensures
            match (lookup(self@, EXECUTE_CTX), event) {
                (Some(cx), Some((target, name, attributes))) => {
                    &&& *target == cx
                    &&& name@ == "error"@
                    &&& views(attributes@) == error_attributes_of(*err)
                },
                (None, None) => true,
                _ => false,
            },
    {
        match self.error_context() {
            Some(execute_cx) => Some((execute_cx, "error", error_attributes(err))),
            None => None,
        }
    }

    /// What the end of validation leaves in the trace: the complexity and
    /// the depth that validation found, on the context that is kept at the
    /// slot of validation. None where validation is not traced.
    pub fn validation_record(&self, result: &ValidationResult) -> (record: Option<
        (&Context, Vec<Attribute>),
    >)
        ensures
            match (lookup(self@, VALIDATION_CTX), record) {
                (Some(cx), Some((target, attributes))) => {
                    &&& *target == cx
                    &&& views(attributes@) == validation_attributes_of(*result)
                },
                (None, None) => true,
                _ => false,
            },
    {
        match self.context(VALIDATION_CTX) {
            Some(validation_cx) => Some((validation_cx, validation_attributes(result))),
            None => None,
        }
    }

    /// The span that covers a request for which the caller supplied no
    /// context: it is named `request` and names no parent.
    pub fn request_span(&self) -> (request: SpanRequest<'_>)
        ensures
            request@ == server_span("request"@, None, None),
    {
        SpanRequest { name: "request", kind: SpanKind::Server, attributes: None, parent: None }
    }

    /// The span that covers parsing: it is named `parse`, hangs below the
    /// request and carries the text of the query and, where there are any
    /// to show, the variables of the request. None where the request is not
    /// traced.
    pub fn parse_span<'a>(&'a self, query_source: &str, variables: Option<String>) -> (request:
        Option<SpanRequest<'a>>)
        ensures
            match lookup(self@, REQUEST_CTX) {
                Some(parent) => request is Some && request->0@ == server_span(
                    "parse"@,
                    Some(parse_attributes_of(query_source@, text_of(variables))),
                    Some(parent),
                ),
                None => request is None,
            },
    {
        match self.context(REQUEST_CTX) {
            Some(parent_cx) => Some(
                SpanRequest {
                    name: "parse",
                    kind: SpanKind::Server,
                    attributes: Some(parse_attributes(query_source, variables)),
                    parent: Some(parent_cx),
                },
            ),
            None => None,
        }
    }

    /// The span that covers validation: it is named `validation` and hangs
    /// below the request. None where the request is not traced.
    pub fn validation_span(&self) -> (request: Option<SpanRequest<'_>>)
        ensures
            match lookup(self@, REQUEST_CTX) {
                Some(parent) => request is Some && request->0@ == server_span(
                    "validation"@,
                    None,
                    Some(parent),
                ),
                None => request is None,
            },
    {
        match self.context(REQUEST_CTX) {
            Some(parent_cx) => Some(
                SpanRequest {
                    name: "validation",
                    kind: SpanKind::Server,
                    attributes: None,
                    parent: Some(parent_cx),
                },
            ),
            None => None,
        }
    }

    /// The span that covers execution: it is named `execute` and hangs
    /// below the request where that is traced. Where it is not, the span
    /// names no parent, so that execution is traced all the same.
    pub fn execution_span(&self) -> (request: SpanRequest<'_>)
        ensures
            request@ == server_span("execute"@, None, lookup(self@, REQUEST_CTX)),
    {
        SpanRequest {
            name: "execute",
            kind: SpanKind::Server,
            attributes: None,
            parent: self.context(REQUEST_CTX),
        }
    }

    /// The span of a field resolution: it is named by the path of the
    /// field, hangs below the context that `resolve_parent` finds and
    /// carries the id of the resolution and the names of the two types.
    /// None where the parent is not traced.
    pub fn resolve_span<'a>(&'a self, info: &'a ResolveInfo<'_>) -> (request: Option<
        SpanRequest<'a>,
    >)
        ensures
            match lookup(self@, parent_slot(info.resolve_id)) {
                Some(parent) => request is Some && request->0@ == server_span(
                    info.path_node@,
                    Some(resolve_attributes_of(*info)),
                    Some(parent),
                ),
                None => request is None,
            },
    {
        match self.resolve_parent(&info.resolve_id) {
            Some(parent_cx) => Some(
                SpanRequest {
                    name: info.path_node,
                    kind: SpanKind::Server,
                    attributes: Some(resolve_attributes(info)),
                    parent: Some(parent_cx),
                },
            ),
            None => None,
        }
    }

    /// Has the tracer of this extension start the span that `request`
    /// describes, and returns the context that holds it. What the tracer
    /// makes of the request is its own affair.
    fn open(&self, request: SpanRequest<'_>) -> Context {
        let named = with_kind(span_builder(request.name), request.kind);
        let builder = match request.attributes {
            Some(attributes) => with_attributes(named, to_key_values(&attributes)),
            None => named,
        };
        let span = match request.parent {
            Some(parent_cx) => start_with_context(builder, &self.tracer, parent_cx),
            None => start(builder, &self.tracer),
        };
        current_with_span(span)
    }

    /// Enters the context of the request: `supplied` where the caller gave
    /// one, else the context of the span that `request_span` describes.
    pub fn start_under(&mut self, supplied: Option<Context>)
        ensures
            final(self)@ == step(
                old(self)@,
                Event::Start {
                    request: match supplied {
                        Some(cx) => cx,
                        None => final(self)@[REQUEST_CTX],
                    },
                },
            ),
            final(self).tracer() == old(self).tracer(),
    {
        let request_cx = match supplied {
            Some(cx) => cx,
            None => self.open(self.request_span()),
        };
        self.enter_context(REQUEST_CTX, request_cx);
    }

    /// Starts the span that `parse_span` describes and enters its context
    /// at the slot of parsing. `variables` is the variables of the request
    /// as JSON, where there are any to show. Nothing happens where the
    /// request is not traced.
    pub fn parse_start_with(&mut self, query_source: &str, variables: Option<String>)
        ensures
            final(self)@ == step(old(self)@, Event::ParseStart { span: final(self)@[PARSE_CTX] }),
            final(self).tracer() == old(self).tracer(),
    {
        if let Some(request) = self.parse_span(query_source, variables) {
            let parse_cx = self.open(request);
            self.enter_context(PARSE_CTX, parse_cx);
        }
    }
}

impl Extension for OpenTelemetryExtension {
    /// Enters the context of the request: the parent context that the
    /// caller configured, where there is one to take, else a fresh one.
    fn start(&mut self, ctx: &ExtensionContext<'_>)
        ensures
            final(self)@ == step(old(self)@, Event::Start { request: final(self)@[REQUEST_CTX] }),
            final(self).tracer() == old(self).tracer(),
    {
        let supplied = match ctx.tracing {
            Some(config) => config.take_parent(),
            None => None,
        };
        self.start_under(supplied);
    }

    /// Leaves the context of the request.
    fn end(&mut self, _ctx: &ExtensionContext<'_>)
        ensures
            final(self)@ == step(old(self)@, Event::End),
            final(self).tracer() == old(self).tracer(),
    {
        self.exit_context(REQUEST_CTX);
    }

    /// Starts the span that covers parsing, below the request. Variables
    /// that cannot be written as JSON are left out of its attributes.
    /// Nothing happens where the request is not traced.
    fn parse_start(
        &mut self,
        _ctx: &ExtensionContext<'_>,
        query_source: &str,
        variables: &Variables,
    )
        ensures
            final(self)@ == step(old(self)@, Event::ParseStart { span: final(self)@[PARSE_CTX] }),
            final(self).tracer() == old(self).tracer(),
    {
        let shown = match to_json(variables) {
            Ok(json) => Some(json),
            Err(_) => None,
        };
        self.parse_start_with(query_source, shown);
    }

    /// Leaves the context of parsing.
    fn parse_end(&mut self, _ctx: &ExtensionContext<'_>, _document: &ExecutableDocument)
        ensures
            final(self)@ == step(old(self)@, Event::ParseEnd),
            final(self).tracer() == old(self).tracer(),
    {
        self.exit_context(PARSE_CTX);
    }

    /// Starts the span that covers validation, below the request. Nothing
    /// happens where the request is not traced.
    fn validation_start(&mut self, _ctx: &ExtensionContext<'_>)
        ensures
            final(self)@ == step(
                old(self)@,
                Event::ValidationStart { span: final(self)@[VALIDATION_CTX] },
            ),
            final(self).tracer() == old(self).tracer(),
    {
        if let Some(request) = self.validation_span() {
            let validation_cx = self.open(request);
            self.enter_context(VALIDATION_CTX, validation_cx);
        }
    }

    /// Attaches to the span of validation what `validation_record` tells,
    /// and then leaves the context of validation. Nothing is attached where
    /// validation is not traced.
    fn validation_end(&mut self, _ctx: &ExtensionContext<'_>, result: &ValidationResult)
        ensures
            final(self)@ == step(old(self)@, Event::ValidationEnd),
            final(self).tracer() == old(self).tracer(),
    {
        if let Some((validation_cx, attributes)) = self.validation_record(result) {
            let mut i: usize = 0;
            while i < attributes.len()
                invariant
                    i <= attributes.len(),
                decreases attributes.len() - i,
            {
                set_attribute(validation_cx, to_key_value(&attributes[i]));
                i += 1;
            }
        }
        self.exit_context(VALIDATION_CTX);
    }

    /// Starts the span that covers execution: below the request where that
    /// is traced, else without a parent of its own.
    fn execution_start(&mut self, _ctx: &ExtensionContext<'_>)
        ensures
            final(self)@ == step(
                old(self)@,
                Event::ExecutionStart { span: final(self)@[EXECUTE_CTX] },
            ),
            final(self).tracer() == old(self).tracer(),
    {
        let execute_cx = self.open(self.execution_span());
        self.enter_context(EXECUTE_CTX, execute_cx);
    }

    /// Leaves the context of execution.
    fn execution_end(&mut self, _ctx: &ExtensionContext<'_>)
        ensures
            final(self)@ == step(old(self)@, Event::ExecutionEnd),
            final(self).tracer() == old(self).tracer(),
    {
        self.exit_context(EXECUTE_CTX);
    }

    /// Starts the span of a field resolution, named by the path of the
    /// field, below the context of its parent. Where that context is not in
    /// the tree, the field is not traced: no span is started and no slot is
    /// entered.
    fn resolve_start(&mut self, _ctx: &ExtensionContext<'_>, info: &ResolveInfo<'_>)
        ensures
            final(self)@ == step(
                old(self)@,
                Event::ResolveStart {
                    id: info.resolve_id,
                    span: final(self)@[resolve_slot(info.resolve_id.current)],
                },
            ),
            final(self).tracer() == old(self).tracer(),
    {
        if let Some(request) = self.resolve_span(info) {
            let resolve_cx = self.open(request);
            self.enter_context(resolve_ctx_id(info.resolve_id.current), resolve_cx);
        }
    }

    /// Leaves the context of a field resolution.
    fn resolve_end(&mut self, _ctx: &ExtensionContext<'_>, info: &ResolveInfo<'_>)
        ensures
            final(self)@ == step(old(self)@, Event::ResolveEnd { id: info.resolve_id }),
            final(self).tracer() == old(self).tracer(),
    {
        self.exit_context(resolve_ctx_id(info.resolve_id.current));
    }

    /// Records the event that `error_event` describes on the span of the
    /// execution phase. Nothing happens where execution is not traced; the
    /// tree stays as it is either way.
    fn error(&mut self, _ctx: &ExtensionContext<'_>, err: &ServerError)
        ensures
            final(self)@ == step(old(self)@, Event::Error),
            final(self).tracer() == old(self).tracer(),
    {
        if let Some((execute_cx, name, attributes)) = self.error_event(err) {
            add_event(execute_cx, name, to_key_values(&attributes));
        }
    }
}

} // verus!
