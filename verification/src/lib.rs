//! A typed builder for Cypher queries against Neo4j.
use vstd::prelude::*;

pub mod text;
pub mod external;
pub mod collections;
pub mod types;
pub mod traits;
pub mod filter;
pub mod functions;
pub mod arrays;
pub mod state;
pub mod patterns;
pub mod builder;
pub mod objects;
pub mod entity_wrapper;
pub mod example;
pub mod legacy;
pub mod rows;
pub mod laws;
pub mod round_trips;
pub mod naming;

verus! {
} // verus!
