//! Selector values: the closed variant sets used as arguments throughout
//! the traversal language.

use vstd::prelude::*;
use crate::path::CompiledRoute;

verus! {

/// Picks which graph nodes a step applies to.
#[derive(Clone, Debug)]
pub enum NodeSelector {
    AnyNode,
    Node(String),
    Nodes(Vec<String>),
}

/// Picks which predicates (edge labels) a step follows. `Route` lets the
/// predicate list be the output of another compiled, anchored route.
#[derive(Clone, Debug)]
pub enum PredicateSelector {
    AnyPredicate,
    Predicate(String),
    Predicates(Vec<String>),
    Route(CompiledRoute),
}

/// Picks result-labelling tags; tags are opaque identifiers, not nodes.
#[derive(Clone, Debug)]
pub enum TagSelector {
    AnyTag,
    Tag(String),
    Tags(Vec<String>),
}

} // verus!
