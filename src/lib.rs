//! Fan-out of CI pipeline documents that carry a `parallelism` field.
pub mod decode;
pub mod expand;
pub mod model;
pub mod text;
pub mod yaml;
