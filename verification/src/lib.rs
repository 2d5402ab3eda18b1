//! Client-side builder for Gremlin-style graph queries: selectors and
//! traversal steps are assembled into a path, compiled to the exact wire
//! text the graph service expects, and the JSON response envelope is
//! decoded into typed result rows.

pub mod error;
pub mod graph;
pub mod json;
pub mod path;
pub mod selector;
pub mod wire;

use vstd::prelude::*;

verus! {

pub use error::Error;
pub use graph::{Graph, GraphNode, Nodes, APIVersion};

} // verus!
