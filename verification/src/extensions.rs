//! The hooks through which the engine tells observers about the life of a
//! request, and the values it hands to them.

pub mod attributes;
pub mod backend;
pub mod context_tree;
pub mod span_request;
pub mod telemetry;

use crate::extensions::telemetry::OpenTelemetryConfig;
use async_graphql_parser::types::ExecutableDocument;
use async_graphql_value::Variables;
use vstd::prelude::*;

verus! {

/// The identity of one field resolution within a request.
#[derive(Clone, Copy, PartialEq, Eq, Debug, Structural)]
pub struct ResolveId {
    /// The resolution of the enclosing field. Absent, or zero, for a field
    /// that is resolved directly under the execution phase.
    pub parent: Option<usize>,
    /// This resolution, unique within the request.
    pub current: usize,
}

/// What the engine tells of a field when it starts and ends resolving it.
pub struct ResolveInfo<'a> {
    /// Which resolution this is, and under which it runs.
    pub resolve_id: ResolveId,
    /// The path of the field from the root of the query.
    pub path_node: &'a str,
    /// The name of the type that holds the field.
    pub parent_type: &'a str,
    /// The name of the type that the field returns.
    pub return_type: &'a str,
}

/// What validation found out about the whole document.
#[derive(Clone, Copy, PartialEq, Eq, Debug, Structural)]
pub struct ValidationResult {
    /// Query complexity
    pub complexity: usize,
    /// Query depth
    pub depth: usize,
}

/// An error that the engine reports for a request.
pub struct ServerError {
    /// What went wrong, for a human reader.
    pub message: String,
}

/// What a hook can read of the request it is called for.
pub struct ExtensionContext<'a> {
    /// The tracing configuration that the caller attached to the request.
    pub tracing: Option<&'a OpenTelemetryConfig>,
}

/// An observer of one request. The engine calls each hook on every
/// registered extension, in registration order; a hook that an extension
/// does not care about does nothing.
#[allow(unused_variables)]
pub trait Extension: Sync + Send + 'static {
    /// Called at the beginning of the request.
    fn start(&mut self, ctx: &ExtensionContext<'_>) {
    }

    /// Called at the end of the request.
    fn end(&mut self, ctx: &ExtensionContext<'_>) {
    }

    /// Called before the query text is parsed.
    fn parse_start(
        &mut self,
        ctx: &ExtensionContext<'_>,
        query_source: &str,
        variables: &Variables,
    ) {
    }

    /// Called after the query text was parsed.
    fn parse_end(&mut self, ctx: &ExtensionContext<'_>, document: &ExecutableDocument) {
    }

    /// Called before the document is validated.
    fn validation_start(&mut self, ctx: &ExtensionContext<'_>) {
    }

    /// Called after the document was validated.
    fn validation_end(&mut self, ctx: &ExtensionContext<'_>, result: &ValidationResult) {
    }

    /// Called before the query is executed.
    fn execution_start(&mut self, ctx: &ExtensionContext<'_>) {
    }

    /// Called after the query was executed.
    fn execution_end(&mut self, ctx: &ExtensionContext<'_>) {
    }

    /// Called before a field is resolved.
    fn resolve_start(&mut self, ctx: &ExtensionContext<'_>, info: &ResolveInfo<'_>) {
    }

    /// Called after a field was resolved.
    fn resolve_end(&mut self, ctx: &ExtensionContext<'_>, info: &ResolveInfo<'_>) {
    }

    /// Called when the engine reports an error.
    fn error(&mut self, ctx: &ExtensionContext<'_>, err: &ServerError) {
    }
}

/// Makes the extensions of a request: one fresh instance for each request,
/// so that no state is shared between requests.
pub trait ExtensionFactory: Send + Sync + 'static {
    /// The extensions that this factory makes.
    type Instance: Extension;

    /// A new extension instance.
    fn create(&self) -> Self::Instance;
}

} // verus!
