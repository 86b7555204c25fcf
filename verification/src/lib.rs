//! A verified core for a five-level administrative tally pipeline.
//!
//! The pipeline walks a fixed five-level hierarchy of regions, fetching per
//! node a list of child regions and a table of vote tallies keyed by region
//! code, joining the two into flattened result records, and persisting the
//! records in bounded batches. This library holds the decisions of that
//! pipeline as verified pure functions and state machines: the join
//! semantics, the endpoint addresses, the chunking that bounds fetch
//! fan-out, the batch splitting that bounds persistence, and the
//! level-to-level orchestration. The HTTP transport and the document store
//! are outside collaborators and live outside the library.

pub mod chunk;
pub mod join;
pub mod model;
pub mod pipeline;
pub mod url;
