//! Instrumentation for a query-execution engine: the hooks through which the
//! engine tells observers about the life of a request, a tracing extension
//! that mirrors the execution tree of a request as a hierarchy of tracing
//! contexts, the cache-control aggregate of a response, and the scalars that
//! are read from plain values.

pub mod cache_control;
pub mod extensions;
pub mod scalars;
