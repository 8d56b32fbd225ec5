//! Core engine of an Iceberg-style table format: the versioned metadata
//! model, the manifest hierarchy that indexes data files, and the decisions
//! of the optimistic commit protocol.

pub mod error;
pub mod catalog;
pub mod text;
pub mod decimal;
pub mod types;
pub mod schema;
pub mod partition;
pub mod snapshot;
pub mod ids;
pub mod metadata;
pub mod manifest;
pub mod files;
pub mod table;
pub mod commit;
pub mod util;
