//! Internal-event emission core: a uniform way for pipeline components to
//! report structured occurrences (errors, byte counts, completed requests)
//! that deterministically produce one structured log entry and a bounded,
//! statically known set of metric updates per occurrence.

pub mod adapters;
pub mod common;
pub mod event;
pub mod journald;
pub mod laws;
pub mod logging;
pub mod metric;
pub mod recording;
pub mod taxonomy;
pub mod upstream;

pub use event::emit;
pub use event::InternalEvent;
