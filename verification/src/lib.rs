//! Architecture-compliance engine for TypeScript and JavaScript projects.
//!
//! The crate checks one file's imports and method lengths against a rule
//! context, builds the project's import graph, finds circular imports and
//! decides the overall verdict.
//!
//! The functions carry contracts that are proved with Verus. A few calls
//! into `std` and `serde_json` stand behind small functions whose contracts
//! are stated and believed: they are in `text`, `paths` and `json`.

pub mod ai;
pub mod analyzer;
pub mod circular;
pub mod config;
pub mod engine;
pub mod graph;
pub mod json;
pub mod paths;
pub mod report;
pub mod resolve;
pub mod search;
pub mod text;
