//! Jobs: what to do (`spec`), how it is reported (`progress`) and what
//! running it takes (`executor`).
pub mod executor;
pub mod command_laws;
pub mod laws;
pub mod progress;
pub mod spec;

pub use spec::{JobSpec, MetadataAction};
