//! What the tracing extension asks of the tracer when it starts a span.

use crate::extensions::attributes::{views, Attribute, AttributeView};
use opentelemetry::trace::SpanKind;
use opentelemetry::Context;
use vstd::prelude::*;

verus! {

/// The description of a span that is about to be started.
pub struct SpanRequest<'a> {
    /// The name of the span.
    pub name: &'a str,
    /// The role of the span in the trace.
    pub kind: SpanKind,
    /// The attributes that the span starts with, if it starts with any.
    pub attributes: Option<Vec<Attribute>>,
    /// The context below which the span is started. Without one the tracer
    /// starts it below whatever context is current where it is called.
    pub parent: Option<&'a Context>,
}

/// A span request, as contracts see it.
pub struct SpanRequestView {
    /// The name of the span.
    pub name: Seq<char>,
    /// The role of the span in the trace.
    pub kind: SpanKind,
    /// The attributes that the span starts with, if it starts with any.
    pub attributes: Option<Seq<AttributeView>>,
    /// The context below which the span is started, if one is named.
    pub parent: Option<Context>,
}

impl View for SpanRequest<'_> {
    type V = SpanRequestView;

    open spec fn view(&self) -> SpanRequestView {
        SpanRequestView {
            name: self.name@,
            kind: self.kind,
            attributes: match self.attributes {
                Some(attributes) => Some(views(attributes@)),
                None => None,
            },
            parent: match self.parent {
                Some(parent) => Some(*parent),
                None => None,
            },
        }
    }
}

/// The request for a span of server kind, which is the kind of every span
/// of the tracing extension.
pub open spec fn server_span(
    name: Seq<char>,
    attributes: Option<Seq<AttributeView>>,
    parent: Option<Context>,
) -> SpanRequestView {
    SpanRequestView { name, kind: SpanKind::Server, attributes, parent }
}

} // verus!
