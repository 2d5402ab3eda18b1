//! The path-expression compiler: traversal steps, finalization operators,
//! and the serialization of an in-memory expression into the exact wire
//! text the remote graph service expects, including the hoisting of named
//! reusable sub-paths into prefix declarations.

use vstd::prelude::*;
use vstd::string::StringExecFns;
use crate::selector::{NodeSelector, PredicateSelector, TagSelector};
use crate::wire::{
    quoted, quoted_list, bracketed_list, dec_str, quote, quote_list, bracket_list, u64_to_string,
};
use crate::error::Error;

verus! {

/// One link in a path: directed traversals, filters, tags, joins with
/// other compiled routes, and splices of named reusable paths.
#[derive(Clone, Debug)]
pub enum Traversal {
    Out(PredicateSelector, TagSelector),
    OutP(PredicateSelector),
    OutT(TagSelector),
    In(PredicateSelector, TagSelector),
    InP(PredicateSelector),
    InT(TagSelector),
    Both(PredicateSelector, TagSelector),
    BothP(PredicateSelector),
    BothT(TagSelector),
    Is(NodeSelector),
    Has(PredicateSelector, NodeSelector),
    TagWith(TagSelector),
    As(TagSelector),
    Back(TagSelector),
    Save(PredicateSelector, TagSelector),
    Intersect(CompiledRoute),
    And(CompiledRoute),
    Union(CompiledRoute),
    Or(CompiledRoute),
    Follow(CompiledReuse),
    FollowR(CompiledReuse),
}

/// The terminal operator of a query; fixes the declared result shape.
#[derive(Clone, Copy, Debug)]
pub enum Final {
    Undefined,
    All,
    GetLimit(i64),
    ToArray,
    ToValue,
    TagArray,
    TagValue,
}

/// The shape of data a query expects back from the graph service.
#[derive(Clone, Copy, Debug)]
pub enum Expectation {
    Unknown,
    SingleNode,
    NodeSequence,
    NameSequence,
    TagSequence,
    SingleTag,
}

/// A compiled navigational fragment without an anchor, such as
/// `.Out("foo").Has("bar","baz")`.
#[derive(Clone, Debug)]
pub struct CompiledPath {
    pub prefix: String,
    pub value: String,
}

/// A compiled anchored, non-finalized path, such as `g.V("a").Out("foo")`.
#[derive(Clone, Debug)]
pub struct CompiledRoute {
    pub prefix: String,
    pub value: String,
}

/// A compiled, executable query together with its declared result shape.
#[derive(Clone, Debug)]
pub struct CompiledQuery {
    pub prefix: String,
    pub value: String,
    pub expectation: Expectation,
}

/// A compiled named reusable path, spliced into other routes by name.
#[derive(Clone, Debug)]
pub struct CompiledReuse {
    pub prefix: String,
    pub name: String,
    pub value: String,
}

// ===================== wire-text model =====================

/// Argument text for a tag selector alone: nothing, one quoted name, or a
/// quoted list.
pub open spec fn tag_args_text(tags: TagSelector) -> Seq<char> {
    match tags {
        TagSelector::AnyTag => Seq::<char>::empty(),
        TagSelector::Tag(name) => quoted(name@),
        TagSelector::Tags(names) => quoted_list(names.deep_view()),
    }
}

/// Argument text for a node selector alone: nothing, one quoted name, or a
/// quoted list.
pub open spec fn node_args_text(nodes: NodeSelector) -> Seq<char> {
    match nodes {
        NodeSelector::AnyNode => Seq::<char>::empty(),
        NodeSelector::Node(name) => quoted(name@),
        NodeSelector::Nodes(names) => quoted_list(names.deep_view()),
    }
}

/// Combined argument text for a predicate selector and a tag selector, as
/// taken by `Out`, `In`, `Both` and `Save`. A predicate taken from a
/// compiled route substitutes that route's body text unquoted.
pub open spec fn pred_tag_args_text(preds: PredicateSelector, tags: TagSelector) -> Seq<char> {
    match (preds, tags) {
        (PredicateSelector::AnyPredicate, TagSelector::AnyTag) => Seq::<char>::empty(),
        (PredicateSelector::AnyPredicate, TagSelector::Tag(tag)) => "null,"@ + quoted(tag@),
        (PredicateSelector::AnyPredicate, TagSelector::Tags(tags_)) => "null,"@ + bracketed_list(
            tags_.deep_view(),
        ),
        (PredicateSelector::Predicate(p), TagSelector::AnyTag) => quoted(p@),
        (PredicateSelector::Predicate(p), TagSelector::Tag(tag)) => quoted(p@) + ","@ + quoted(
            tag@,
        ),
        (PredicateSelector::Predicate(p), TagSelector::Tags(tags_)) => quoted(p@) + ","@
            + bracketed_list(tags_.deep_view()),
        (PredicateSelector::Predicates(ps), TagSelector::AnyTag) => bracketed_list(ps.deep_view()),
        (PredicateSelector::Predicates(ps), TagSelector::Tag(tag)) => bracketed_list(ps.deep_view())
            + ","@ + quoted(tag@),
        (PredicateSelector::Predicates(ps), TagSelector::Tags(tags_)) => bracketed_list(
            ps.deep_view(),
        ) + ","@ + bracketed_list(tags_.deep_view()),
        (PredicateSelector::Route(route), TagSelector::AnyTag) => route.value@,
        (PredicateSelector::Route(route), TagSelector::Tag(tag)) => route.value@ + ", "@ + quoted(
            tag@,
        ),
        (PredicateSelector::Route(route), TagSelector::Tags(tags_)) => route.value@ + ", "@
            + bracketed_list(tags_.deep_view()),
    }
}

/// Combined argument text for a predicate selector and a node selector, as
/// taken by `Has`.
pub open spec fn pred_node_args_text(preds: PredicateSelector, nodes: NodeSelector) -> Seq<char> {
    match (preds, nodes) {
        (PredicateSelector::AnyPredicate, NodeSelector::AnyNode) => Seq::<char>::empty(),
        (PredicateSelector::AnyPredicate, NodeSelector::Node(node)) => "null,"@ + quoted(node@),
        (PredicateSelector::AnyPredicate, NodeSelector::Nodes(nodes_)) => "null,"@ + bracketed_list(
            nodes_.deep_view(),
        ),
        (PredicateSelector::Predicate(p), NodeSelector::AnyNode) => quoted(p@),
        (PredicateSelector::Predicate(p), NodeSelector::Node(node)) => quoted(p@) + ","@ + quoted(
            node@,
        ),
        (PredicateSelector::Predicate(p), NodeSelector::Nodes(nodes_)) => quoted(p@) + ","@
            + bracketed_list(nodes_.deep_view()),
        (PredicateSelector::Predicates(ps), NodeSelector::AnyNode) => bracketed_list(
            ps.deep_view(),
        ),
        (PredicateSelector::Predicates(ps), NodeSelector::Node(node)) => bracketed_list(
            ps.deep_view(),
        ) + ","@ + quoted(node@),
        (PredicateSelector::Predicates(ps), NodeSelector::Nodes(nodes_)) => bracketed_list(
            ps.deep_view(),
        ) + ","@ + bracketed_list(nodes_.deep_view()),
        (PredicateSelector::Route(route), NodeSelector::AnyNode) => route.value@,
        (PredicateSelector::Route(route), NodeSelector::Node(node)) => route.value@ + ","@ + quoted(
            node@,
        ),
        (PredicateSelector::Route(route), NodeSelector::Nodes(nodes_)) => route.value@ + ","@
            + bracketed_list(nodes_.deep_view()),
    }
}

/// Wire text of the anchor of a route: `g.V()` with the selected nodes as
/// arguments.
pub open spec fn start_text(start: NodeSelector) -> Seq<char> {
    "g.V("@ + node_args_text(start) + ")"@
}

/// Wire text contributed by one traversal step.
pub open spec fn traversal_text(t: Traversal) -> Seq<char> {
    match t {
        Traversal::Out(preds, tags) => ".Out("@ + pred_tag_args_text(preds, tags) + ")"@,
        Traversal::OutP(preds) => ".Out("@ + pred_tag_args_text(preds, TagSelector::AnyTag) + ")"@,
        Traversal::OutT(tags) => ".Out("@ + pred_tag_args_text(PredicateSelector::AnyPredicate, tags)
            + ")"@,
        Traversal::In(preds, tags) => ".In("@ + pred_tag_args_text(preds, tags) + ")"@,
        Traversal::InP(preds) => ".In("@ + pred_tag_args_text(preds, TagSelector::AnyTag) + ")"@,
        Traversal::InT(tags) => ".In("@ + pred_tag_args_text(PredicateSelector::AnyPredicate, tags)
            + ")"@,
        Traversal::Both(preds, tags) => ".Both("@ + pred_tag_args_text(preds, tags) + ")"@,
        Traversal::BothP(preds) => ".Both("@ + pred_tag_args_text(preds, TagSelector::AnyTag)
            + ")"@,
        Traversal::BothT(tags) => ".Both("@ + pred_tag_args_text(
            PredicateSelector::AnyPredicate,
            tags,
        ) + ")"@,
        Traversal::Is(nodes) => ".Is("@ + node_args_text(nodes) + ")"@,
        Traversal::Has(preds, nodes) => ".Has("@ + pred_node_args_text(preds, nodes) + ")"@,
        Traversal::TagWith(tags) => ".As("@ + tag_args_text(tags) + ")"@,
        Traversal::As(tags) => ".As("@ + tag_args_text(tags) + ")"@,
        Traversal::Back(tags) => ".Back("@ + tag_args_text(tags) + ")"@,
        Traversal::Save(preds, tags) => ".Save("@ + pred_tag_args_text(preds, tags) + ")"@,
        Traversal::Intersect(route) => ".And("@ + route.value@ + ")"@,
        Traversal::And(route) => ".And("@ + route.value@ + ")"@,
        Traversal::Union(route) => ".Or("@ + route.value@ + ")"@,
        Traversal::Or(route) => ".Or("@ + route.value@ + ")"@,
        Traversal::Follow(reusable) => ".Follow("@ + reusable.name@ + ")"@,
        Traversal::FollowR(reusable) => ".FollowR("@ + reusable.name@ + ")"@,
    }
}

/// Wire text of a whole step sequence, in order.
pub open spec fn traversals_text(ts: Seq<Traversal>) -> Seq<char>
    decreases ts.len(),
{
    if ts.len() == 0 {
        Seq::<char>::empty()
    } else {
        traversals_text(ts.drop_last()) + traversal_text(ts.last())
    }
}

/// The declaration a reusable path contributes when spliced: its own
/// transitive prefix first, then `var name = body;`.
pub open spec fn declaration_text(reusable: CompiledReuse) -> Seq<char> {
    reusable.prefix@ + "var "@ + reusable.name@ + " = "@ + reusable.value@ + ";"@
}

/// Prefix declarations contributed by one step: a spliced reusable path
/// brings its declaration, and a joined or substituted route brings its
/// own transitive prefix.
pub open spec fn step_prefix_text(t: Traversal) -> Seq<char> {
    match t {
        Traversal::Follow(reusable) => declaration_text(reusable),
        Traversal::FollowR(reusable) => declaration_text(reusable),
        Traversal::Intersect(route) => route.prefix@,
        Traversal::And(route) => route.prefix@,
        Traversal::Union(route) => route.prefix@,
        Traversal::Or(route) => route.prefix@,
        Traversal::Out(preds, _) => pred_prefix_text(preds),
        Traversal::OutP(preds) => pred_prefix_text(preds),
        Traversal::In(preds, _) => pred_prefix_text(preds),
        Traversal::InP(preds) => pred_prefix_text(preds),
        Traversal::Both(preds, _) => pred_prefix_text(preds),
        Traversal::BothP(preds) => pred_prefix_text(preds),
        Traversal::Has(preds, _) => pred_prefix_text(preds),
        Traversal::Save(preds, _) => pred_prefix_text(preds),
        _ => Seq::<char>::empty(),
    }
}

/// Prefix declarations carried by a predicate selector: a predicate taken
/// from a compiled route hands the consuming path that route's prefix.
pub open spec fn pred_prefix_text(preds: PredicateSelector) -> Seq<char> {
    match preds {
        PredicateSelector::Route(route) => route.prefix@,
        _ => Seq::<char>::empty(),
    }
}

/// All prefix declarations of a step sequence, in traversal order.
pub open spec fn prefix_text(ts: Seq<Traversal>) -> Seq<char>
    decreases ts.len(),
{
    if ts.len() == 0 {
        Seq::<char>::empty()
    } else {
        prefix_text(ts.drop_last()) + step_prefix_text(ts.last())
    }
}

/// Wire text of a finalization operator.
pub open spec fn final_text(fin: Final) -> Seq<char> {
    match fin {
        Final::Undefined => Seq::<char>::empty(),
        Final::All => ".All()"@,
        Final::GetLimit(n) => ".GetLimit("@ + dec_str(n as nat) + ")"@,
        Final::ToArray => ".ToArray()"@,
        Final::ToValue => ".ToValue()"@,
        Final::TagArray => ".TagArray()"@,
        Final::TagValue => ".TagValue()"@,
    }
}

/// The result shape a finalization operator declares.
pub open spec fn expectation_of(fin: Final) -> Expectation {
    match fin {
        Final::Undefined => Expectation::Unknown,
        Final::All => Expectation::NodeSequence,
        Final::GetLimit(_) => Expectation::NodeSequence,
        Final::ToArray => Expectation::NameSequence,
        Final::ToValue => Expectation::SingleNode,
        Final::TagArray => Expectation::TagSequence,
        Final::TagValue => Expectation::SingleTag,
    }
}

/// Body text of an anchored route: the anchor, then every step in order.
pub open spec fn route_text(start: NodeSelector, ts: Seq<Traversal>) -> Seq<char> {
    start_text(start) + traversals_text(ts)
}

/// Body text of a finalized query.
pub open spec fn query_text(start: NodeSelector, ts: Seq<Traversal>, fin: Final) -> Seq<char> {
    route_text(start, ts) + final_text(fin)
}

// ===================== argument rendering =====================

/// Renders the arguments of a tag-only step such as `As` or `Back`.
fn tag_args(tags: &TagSelector) -> (r: String)
    ensures
        r@ == tag_args_text(*tags),
{
    match tags {
        TagSelector::AnyTag => String::new(),
        TagSelector::Tag(name) => quote(name.as_str()),
        TagSelector::Tags(names) => quote_list(names),
    }
}

/// Renders the arguments of a node-only step such as the anchor or `Is`.
fn node_args(nodes: &NodeSelector) -> (r: String)
    ensures
        r@ == node_args_text(*nodes),
{
    match nodes {
        NodeSelector::AnyNode => String::new(),
        NodeSelector::Node(name) => quote(name.as_str()),
        NodeSelector::Nodes(names) => quote_list(names),
    }
}

/// Renders the combined predicate and tag arguments of `Out`, `In`, `Both`
/// and `Save` steps.
pub fn parse_predicates_and_tags(predicates: &PredicateSelector, tags: &TagSelector) -> (r: String)
    ensures
        r@ == pred_tag_args_text(*predicates, *tags),
{
    match (predicates, tags) {
        (PredicateSelector::AnyPredicate, TagSelector::AnyTag) => String::new(),
        (PredicateSelector::AnyPredicate, TagSelector::Tag(tag)) => {
            let mut s = String::from_str("null,");
            let q = quote(tag.as_str());
            s.append(q.as_str());
            s
        },
        (PredicateSelector::AnyPredicate, TagSelector::Tags(tags_)) => {
            let mut s = String::from_str("null,");
            let b = bracket_list(tags_);
            s.append(b.as_str());
            s
        },
        (PredicateSelector::Predicate(p), TagSelector::AnyTag) => quote(p.as_str()),
        (PredicateSelector::Predicate(p), TagSelector::Tag(tag)) => {
            let mut s = quote(p.as_str());
            s.append(",");
            let q = quote(tag.as_str());
            s.append(q.as_str());
            proof {
                assert(s@ =~= pred_tag_args_text(*predicates, *tags));
            }
            s
        },
        (PredicateSelector::Predicate(p), TagSelector::Tags(tags_)) => {
            let mut s = quote(p.as_str());
            s.append(",");
            let b = bracket_list(tags_);
            s.append(b.as_str());
            proof {
                assert(s@ =~= pred_tag_args_text(*predicates, *tags));
            }
            s
        },
        (PredicateSelector::Predicates(ps), TagSelector::AnyTag) => bracket_list(ps),
        (PredicateSelector::Predicates(ps), TagSelector::Tag(tag)) => {
            let mut s = bracket_list(ps);
            s.append(",");
            let q = quote(tag.as_str());
            s.append(q.as_str());
            proof {
                assert(s@ =~= pred_tag_args_text(*predicates, *tags));
            }
            s
        },
        (PredicateSelector::Predicates(ps), TagSelector::Tags(tags_)) => {
            let mut s = bracket_list(ps);
            s.append(",");
            let b = bracket_list(tags_);
            s.append(b.as_str());
            proof {
                assert(s@ =~= pred_tag_args_text(*predicates, *tags));
            }
            s
        },
        (PredicateSelector::Route(route), TagSelector::AnyTag) => String::from_str(
            route.value.as_str(),
        ),
        (PredicateSelector::Route(route), TagSelector::Tag(tag)) => {
            let mut s = String::from_str(route.value.as_str());
            s.append(", ");
            let q = quote(tag.as_str());
            s.append(q.as_str());
            proof {
                assert(s@ =~= pred_tag_args_text(*predicates, *tags));
            }
            s
        },
        (PredicateSelector::Route(route), TagSelector::Tags(tags_)) => {
            let mut s = String::from_str(route.value.as_str());
            s.append(", ");
            let b = bracket_list(tags_);
            s.append(b.as_str());
            proof {
                assert(s@ =~= pred_tag_args_text(*predicates, *tags));
            }
            s
        },
    }
}

/// Renders the combined predicate and node arguments of a `Has` step.
pub fn parse_predicates_and_nodes(predicates: &PredicateSelector, nodes: &NodeSelector) -> (r:
    String)
    ensures
        r@ == pred_node_args_text(*predicates, *nodes),
{
    match (predicates, nodes) {
        (PredicateSelector::AnyPredicate, NodeSelector::AnyNode) => String::new(),
        (PredicateSelector::AnyPredicate, NodeSelector::Node(node)) => {
            let mut s = String::from_str("null,");
            let q = quote(node.as_str());
            s.append(q.as_str());
            s
        },
        (PredicateSelector::AnyPredicate, NodeSelector::Nodes(nodes_)) => {
            let mut s = String::from_str("null,");
            let b = bracket_list(nodes_);
            s.append(b.as_str());
            s
        },
        (PredicateSelector::Predicate(p), NodeSelector::AnyNode) => quote(p.as_str()),
        (PredicateSelector::Predicate(p), NodeSelector::Node(node)) => {
            let mut s = quote(p.as_str());
            s.append(",");
            let q = quote(node.as_str());
            s.append(q.as_str());
            proof {
                assert(s@ =~= pred_node_args_text(*predicates, *nodes));
            }
            s
        },
        (PredicateSelector::Predicate(p), NodeSelector::Nodes(nodes_)) => {
            let mut s = quote(p.as_str());
            s.append(",");
            let b = bracket_list(nodes_);
            s.append(b.as_str());
            proof {
                assert(s@ =~= pred_node_args_text(*predicates, *nodes));
            }
            s
        },
        (PredicateSelector::Predicates(ps), NodeSelector::AnyNode) => bracket_list(ps),
        (PredicateSelector::Predicates(ps), NodeSelector::Node(node)) => {
            let mut s = bracket_list(ps);
            s.append(",");
            let q = quote(node.as_str());
            s.append(q.as_str());
            proof {
                assert(s@ =~= pred_node_args_text(*predicates, *nodes));
            }
            s
        },
        (PredicateSelector::Predicates(ps), NodeSelector::Nodes(nodes_)) => {
            let mut s = bracket_list(ps);
            s.append(",");
            let b = bracket_list(nodes_);
            s.append(b.as_str());
            proof {
                assert(s@ =~= pred_node_args_text(*predicates, *nodes));
            }
            s
        },
        (PredicateSelector::Route(route), NodeSelector::AnyNode) => String::from_str(
            route.value.as_str(),
        ),
        (PredicateSelector::Route(route), NodeSelector::Node(node)) => {
            let mut s = String::from_str(route.value.as_str());
            s.append(",");
            let q = quote(node.as_str());
            s.append(q.as_str());
            proof {
                assert(s@ =~= pred_node_args_text(*predicates, *nodes));
            }
            s
        },
        (PredicateSelector::Route(route), NodeSelector::Nodes(nodes_)) => {
            let mut s = String::from_str(route.value.as_str());
            s.append(",");
            let b = bracket_list(nodes_);
            s.append(b.as_str());
            proof {
                assert(s@ =~= pred_node_args_text(*predicates, *nodes));
            }
            s
        },
    }
}

/// Renders the anchor of a route.
pub fn parse_start(start: &NodeSelector) -> (r: String)
    ensures
        r@ == start_text(*start),
{
    let mut s = String::from_str("g.V(");
    let args = node_args(start);
    s.append(args.as_str());
    s.append(")");
    proof {
        assert(s@ =~= start_text(*start));
    }
    s
}

/// Renders the wire text of one traversal step.
fn traversal_step(t: &Traversal) -> (r: String)
    ensures
        r@ == traversal_text(*t),
{
    match t {
        Traversal::Out(preds, tags) => {
            let mut s = String::from_str(".Out(");
            let args = parse_predicates_and_tags(preds, tags);
            s.append(args.as_str());
            s.append(")");
            proof {
                assert(s@ =~= traversal_text(*t));
            }
            s
        },
        Traversal::OutP(preds) => {
            let mut s = String::from_str(".Out(");
            let args = parse_predicates_and_tags(preds, &TagSelector::AnyTag);
            s.append(args.as_str());
            s.append(")");
            proof {
                assert(s@ =~= traversal_text(*t));
            }
            s
        },
        Traversal::OutT(tags) => {
            let mut s = String::from_str(".Out(");
            let args = parse_predicates_and_tags(&PredicateSelector::AnyPredicate, tags);
            s.append(args.as_str());
            s.append(")");
            proof {
                assert(s@ =~= traversal_text(*t));
            }
            s
        },
        Traversal::In(preds, tags) => {
            let mut s = String::from_str(".In(");
            let args = parse_predicates_and_tags(preds, tags);
            s.append(args.as_str());
            s.append(")");
            proof {
                assert(s@ =~= traversal_text(*t));
            }
            s
        },
        Traversal::InP(preds) => {
            let mut s = String::from_str(".In(");
            let args = parse_predicates_and_tags(preds, &TagSelector::AnyTag);
            s.append(args.as_str());
            s.append(")");
            proof {
                assert(s@ =~= traversal_text(*t));
            }
            s
        },
        Traversal::InT(tags) => {
            let mut s = String::from_str(".In(");
            let args = parse_predicates_and_tags(&PredicateSelector::AnyPredicate, tags);
            s.append(args.as_str());
            s.append(")");
            proof {
                assert(s@ =~= traversal_text(*t));
            }
            s
        },
        Traversal::Both(preds, tags) => {
            let mut s = String::from_str(".Both(");
            let args = parse_predicates_and_tags(preds, tags);
            s.append(args.as_str());
            s.append(")");
            proof {
                assert(s@ =~= traversal_text(*t));
            }
            s
        },
        Traversal::BothP(preds) => {
            let mut s = String::from_str(".Both(");
            let args = parse_predicates_and_tags(preds, &TagSelector::AnyTag);
            s.append(args.as_str());
            s.append(")");
            proof {
                assert(s@ =~= traversal_text(*t));
            }
            s
        },
        Traversal::BothT(tags) => {
            let mut s = String::from_str(".Both(");
            let args = parse_predicates_and_tags(&PredicateSelector::AnyPredicate, tags);
            s.append(args.as_str());
            s.append(")");
            proof {
                assert(s@ =~= traversal_text(*t));
            }
            s
        },
        Traversal::Is(nodes) => {
            let mut s = String::from_str(".Is(");
            let args = node_args(nodes);
            s.append(args.as_str());
            s.append(")");
            proof {
                assert(s@ =~= traversal_text(*t));
            }
            s
        },
        Traversal::Has(preds, nodes) => {
            let mut s = String::from_str(".Has(");
            let args = parse_predicates_and_nodes(preds, nodes);
            s.append(args.as_str());
            s.append(")");
            proof {
                assert(s@ =~= traversal_text(*t));
            }
            s
        },
        Traversal::TagWith(tags) => {
            let mut s = String::from_str(".As(");
            let args = tag_args(tags);
            s.append(args.as_str());
            s.append(")");
            proof {
                assert(s@ =~= traversal_text(*t));
            }
            s
        },
        Traversal::As(tags) => {
            let mut s = String::from_str(".As(");
            let args = tag_args(tags);
            s.append(args.as_str());
            s.append(")");
            proof {
                assert(s@ =~= traversal_text(*t));
            }
            s
        },
        Traversal::Back(tags) => {
            let mut s = String::from_str(".Back(");
            let args = tag_args(tags);
            s.append(args.as_str());
            s.append(")");
            proof {
                assert(s@ =~= traversal_text(*t));
            }
            s
        },
        Traversal::Save(preds, tags) => {
            let mut s = String::from_str(".Save(");
            let args = parse_predicates_and_tags(preds, tags);
            s.append(args.as_str());
            s.append(")");
            proof {
                assert(s@ =~= traversal_text(*t));
            }
            s
        },
        Traversal::Intersect(route) => {
            let mut s = String::from_str(".And(");
            s.append(route.value.as_str());
            s.append(")");
            proof {
                assert(s@ =~= traversal_text(*t));
            }
            s
        },
        Traversal::And(route) => {
            let mut s = String::from_str(".And(");
            s.append(route.value.as_str());
            s.append(")");
            proof {
                assert(s@ =~= traversal_text(*t));
            }
            s
        },
        Traversal::Union(route) => {
            let mut s = String::from_str(".Or(");
            s.append(route.value.as_str());
            s.append(")");
            proof {
                assert(s@ =~= traversal_text(*t));
            }
            s
        },
        Traversal::Or(route) => {
            let mut s = String::from_str(".Or(");
            s.append(route.value.as_str());
            s.append(")");
            proof {
                assert(s@ =~= traversal_text(*t));
            }
            s
        },
        Traversal::Follow(reusable) => {
            let mut s = String::from_str(".Follow(");
            s.append(reusable.name.as_str());
            s.append(")");
            proof {
                assert(s@ =~= traversal_text(*t));
            }
            s
        },
        Traversal::FollowR(reusable) => {
            let mut s = String::from_str(".FollowR(");
            s.append(reusable.name.as_str());
            s.append(")");
            proof {
                assert(s@ =~= traversal_text(*t));
            }
            s
        },
    }
}

/// Renders the whole step sequence of a path, in order.
pub fn parse_traversals(traversals: &Vec<Traversal>) -> (r: String)
    ensures
        r@ == traversals_text(traversals@),
{
    let mut s = String::new();
    let mut i: usize = 0;
    while i < traversals.len()
        invariant
            0 <= i <= traversals@.len(),
            s@ == traversals_text(traversals@.take(i as int)),
        decreases traversals@.len() - i,
    {
        let step = traversal_step(&traversals[i]);
        s.append(step.as_str());
        i = i + 1;
        proof {
            assert(traversals@.take(i as int).drop_last() =~= traversals@.take(i - 1));
            assert(s@ =~= traversals_text(traversals@.take(i as int)));
        }
    }
    proof {
        assert(traversals@.take(traversals@.len() as int) =~= traversals@);
    }
    s
}

/// Renders the prefix declarations carried by a predicate selector.
fn pred_prefix(preds: &PredicateSelector) -> (r: String)
    ensures
        r@ == pred_prefix_text(*preds),
{
    match preds {
        PredicateSelector::Route(route) => String::from_str(route.prefix.as_str()),
        _ => String::new(),
    }
}

/// Renders the prefix declarations contributed by one step.
fn step_prefix(t: &Traversal) -> (r: String)
    ensures
        r@ == step_prefix_text(*t),
{
    match t {
        Traversal::Follow(reusable) | Traversal::FollowR(reusable) => {
            let mut s = String::from_str(reusable.prefix.as_str());
            s.append("var ");
            s.append(reusable.name.as_str());
            s.append(" = ");
            s.append(reusable.value.as_str());
            s.append(";");
            proof {
                assert(s@ =~= step_prefix_text(*t));
            }
            s
        },
        Traversal::Intersect(route)
        | Traversal::And(route)
        | Traversal::Union(route)
        | Traversal::Or(route) => String::from_str(route.prefix.as_str()),
        Traversal::Out(preds, _)
        | Traversal::OutP(preds)
        | Traversal::In(preds, _)
        | Traversal::InP(preds)
        | Traversal::Both(preds, _)
        | Traversal::BothP(preds)
        | Traversal::Has(preds, _)
        | Traversal::Save(preds, _) => pred_prefix(preds),
        _ => String::new(),
    }
}

/// Collects the hoisted declarations of a whole step sequence, in
/// traversal order.
pub fn parse_prefix(traversals: &Vec<Traversal>) -> (r: String)
    ensures
        r@ == prefix_text(traversals@),
{
    let mut s = String::new();
    let mut i: usize = 0;
    while i < traversals.len()
        invariant
            0 <= i <= traversals@.len(),
            s@ == prefix_text(traversals@.take(i as int)),
        decreases traversals@.len() - i,
    {
        let step = step_prefix(&traversals[i]);
        s.append(step.as_str());
        i = i + 1;
        proof {
            assert(traversals@.take(i as int).drop_last() =~= traversals@.take(i - 1));
            assert(s@ =~= prefix_text(traversals@.take(i as int)));
        }
    }
    proof {
        assert(traversals@.take(traversals@.len() as int) =~= traversals@);
    }
    s
}

/// Renders the wire token of a finalization operator. A limit must
/// already have been validated as positive.
pub fn parse_final(fin: &Final) -> (r: String)
    requires
        *fin matches Final::GetLimit(n) ==> n >= 1,
    ensures
        r@ == final_text(*fin),
{
    match fin {
        Final::Undefined => String::new(),
        Final::All => String::from_str(".All()"),
        Final::GetLimit(n) => {
            let mut s = String::from_str(".GetLimit(");
            let num = u64_to_string(*n as u64);
            s.append(num.as_str());
            s.append(")");
            proof {
                assert((*n as u64) as nat == *n as nat);
                assert(s@ =~= final_text(*fin));
            }
            s
        },
        Final::ToArray => String::from_str(".ToArray()"),
        Final::ToValue => String::from_str(".ToValue()"),
        Final::TagArray => String::from_str(".TagArray()"),
        Final::TagValue => String::from_str(".TagValue()"),
    }
}

/// Maps a finalization operator to the result shape it declares.
fn expectation_for(fin: &Final) -> (e: Expectation)
    ensures
        e == expectation_of(*fin),
{
    match fin {
        Final::Undefined => Expectation::Unknown,
        Final::All => Expectation::NodeSequence,
        Final::GetLimit(_) => Expectation::NodeSequence,
        Final::ToArray => Expectation::NameSequence,
        Final::ToValue => Expectation::SingleNode,
        Final::TagArray => Expectation::TagSequence,
        Final::TagValue => Expectation::SingleTag,
    }
}

// ===================== builders =====================

/// Holds a navigational fragment before compilation.
pub struct Trail(pub Vec<Traversal>);

impl Trail {
    /// Compiles a bare step sequence into a navigational fragment.
    pub fn compile_path(traversals: Vec<Traversal>) -> (r: Result<CompiledPath, Error>)
        ensures
            r matches Ok(p) && p.prefix@ == prefix_text(traversals@) && p.value@
                == traversals_text(traversals@),
    {
        let trail = Trail(traversals);
        let prefix = parse_prefix(&trail.0);
        let value = parse_traversals(&trail.0);
        Ok(CompiledPath { prefix, value })
    }
}

/// Holds a named reusable path before compilation.
pub struct Morphism(pub String, pub Vec<Traversal>);

impl Morphism {
    /// Compiles a named reusable path: an `g.M()` anchor token followed by
    /// the steps. The name keys prefix hoisting, so it must be non-empty.
    pub fn compile_reuse(name: &str, traversals: Vec<Traversal>) -> (r: Result<
        CompiledReuse,
        Error,
    >)
        ensures
            name@.len() == 0 ==> (r matches Err(e) && e is InvalidArgument),
            name@.len() > 0 ==> (r matches Ok(m) && m.name@ == name@ && m.prefix@ == prefix_text(
                traversals@,
            ) && m.value@ == "g.M()"@ + traversals_text(traversals@)),
    {
        if name.is_empty() {
            return Err(Error::InvalidArgument);
        }
        let morphism = Morphism(String::from_str(name), traversals);
        let prefix = parse_prefix(&morphism.1);
        let mut value = String::from_str("g.M()");
        let steps = parse_traversals(&morphism.1);
        value.append(steps.as_str());
        Ok(CompiledReuse { prefix, name: morphism.0, value })
    }
}

/// Holds an anchored path, finalized or not, before compilation.
pub struct Vertex(pub NodeSelector, pub Vec<Traversal>, pub Final);

impl Vertex {
    /// Compiles an anchored, possibly finalized query: anchor, steps, then
    /// the finalization token, with the declared result shape recorded. A
    /// limit that is not positive is rejected at once.
    pub fn compile_query(start: NodeSelector, traversals: Vec<Traversal>, fin: Final) -> (r: Result<
        CompiledQuery,
        Error,
    >)
        ensures
            (fin matches Final::GetLimit(n) && n < 1) ==> (r matches Err(e) && e is InvalidArgument),
            !(fin matches Final::GetLimit(n) && n < 1) ==> (r matches Ok(q) && q.prefix@
                == prefix_text(traversals@) && q.value@ == query_text(start, traversals@, fin)
                && q.expectation == expectation_of(fin)),
    {
        if let Final::GetLimit(n) = fin {
            if n < 1 {
                return Err(Error::InvalidArgument);
            }
        }
        let vertex = Vertex(start, traversals, fin);
        let prefix = parse_prefix(&vertex.1);
        let mut value = parse_start(&vertex.0);
        let steps = parse_traversals(&vertex.1);
        value.append(steps.as_str());
        let expectation = expectation_for(&vertex.2);
        match fin {
            Final::Undefined => {
                proof {
                    assert(value@ =~= query_text(start, traversals@, fin));
                }
            },
            _ => {
                let tail = parse_final(&fin);
                value.append(tail.as_str());
                proof {
                    assert(value@ =~= query_text(start, traversals@, fin));
                }
            },
        }
        Ok(CompiledQuery { prefix, value, expectation })
    }

    /// Compiles an anchored path without a finalization operator.
    pub fn compile_route(start: NodeSelector, traversals: Vec<Traversal>) -> (r: Result<
        CompiledRoute,
        Error,
    >)
        ensures
            r matches Ok(p) && p.prefix@ == prefix_text(traversals@) && p.value@ == route_text(
                start,
                traversals@,
            ),
    {
        let vertex = Vertex(start, traversals, Final::Undefined);
        let prefix = parse_prefix(&vertex.1);
        let mut value = parse_start(&vertex.0);
        let steps = parse_traversals(&vertex.1);
        value.append(steps.as_str());
        Ok(CompiledRoute { prefix, value })
    }
}

impl CompiledPath {
    /// Joins two navigational fragments: bodies in order, the right-hand
    /// fragment's declarations hoisted before the left-hand ones.
    pub fn add(&self, rhs: &CompiledPath) -> (r: CompiledPath)
        ensures
            r.prefix@ == rhs.prefix@ + self.prefix@,
            r.value@ == self.value@ + rhs.value@,
    {
        let mut prefix = String::from_str(rhs.prefix.as_str());
        prefix.append(self.prefix.as_str());
        let mut value = String::from_str(self.value.as_str());
        value.append(rhs.value.as_str());
        CompiledPath { prefix, value }
    }
}

impl CompiledRoute {
    /// Extends an anchored route with a navigational fragment: bodies in
    /// order, the fragment's declarations hoisted before the route's own.
    pub fn add(&self, rhs: &CompiledPath) -> (r: CompiledRoute)
        ensures
            r.prefix@ == rhs.prefix@ + self.prefix@,
            r.value@ == self.value@ + rhs.value@,
    {
        let mut prefix = String::from_str(rhs.prefix.as_str());
        prefix.append(self.prefix.as_str());
        let mut value = String::from_str(self.value.as_str());
        value.append(rhs.value.as_str());
        CompiledRoute { prefix, value }
    }
}

// ===================== laws =====================

/// Law: step text distributes over concatenation of step sequences.
pub proof fn lemma_traversals_text_concat(a: Seq<Traversal>, b: Seq<Traversal>)
    ensures
        traversals_text(a + b) == traversals_text(a) + traversals_text(b),
    decreases b.len(),
{
    if b.len() == 0 {
        assert(a + b =~= a);
        assert(traversals_text(a) + traversals_text(b) =~= traversals_text(a));
    } else {
        lemma_traversals_text_concat(a, b.drop_last());
        assert((a + b).drop_last() =~= a + b.drop_last());
        assert(traversals_text(a + b) =~= traversals_text(a) + traversals_text(b));
    }
}

/// Law: prefix text distributes over concatenation of step sequences.
pub proof fn lemma_prefix_text_concat(a: Seq<Traversal>, b: Seq<Traversal>)
    ensures
        prefix_text(a + b) == prefix_text(a) + prefix_text(b),
    decreases b.len(),
{
    if b.len() == 0 {
        assert(a + b =~= a);
        assert(prefix_text(a) + prefix_text(b) =~= prefix_text(a));
    } else {
        lemma_prefix_text_concat(a, b.drop_last());
        assert((a + b).drop_last() =~= a + b.drop_last());
        assert(prefix_text(a + b) =~= prefix_text(a) + prefix_text(b));
    }
}

/// Law: compilation is a pure read of the accumulated state. Any two
/// compiled artifacts of the same anchor, step sequence and finalization
/// operator carry byte-identical prefix and body text and the same
/// declared result shape.
pub proof fn lemma_compile_deterministic(
    start: NodeSelector,
    ts: Seq<Traversal>,
    fin: Final,
    a: CompiledQuery,
    b: CompiledQuery,
)
    requires
        a.prefix@ == prefix_text(ts),
        a.value@ == query_text(start, ts, fin),
        a.expectation == expectation_of(fin),
        b.prefix@ == prefix_text(ts),
        b.value@ == query_text(start, ts, fin),
        b.expectation == expectation_of(fin),
    ensures
        a.prefix@ == b.prefix@,
        a.value@ == b.value@,
        a.expectation == b.expectation,
{
}

/// Law: a spliced reusable path is hoisted, not expanded. For a route
/// whose first step is `Follow(m)`, the compiled prefix opens with `m`'s
/// own transitive declarations followed by `m`'s `var name = body;`
/// declaration, ahead of everything later steps contribute, while the
/// body refers to `m` only by its name.
pub proof fn lemma_follow_hoists_declaration(
    start: NodeSelector,
    m: CompiledReuse,
    rest: Seq<Traversal>,
)
    ensures
        prefix_text(seq![Traversal::Follow(m)] + rest) == declaration_text(m) + prefix_text(rest),
        route_text(start, seq![Traversal::Follow(m)] + rest) == start_text(start) + (".Follow("@
            + m.name@ + ")"@) + traversals_text(rest),
{
    let first = seq![Traversal::Follow(m)];
    lemma_prefix_text_concat(first, rest);
    lemma_traversals_text_concat(first, rest);
    assert(first.len() == 1);
    assert(first.last() == Traversal::Follow(m));
    assert(first.drop_last() =~= Seq::<Traversal>::empty());
    assert(prefix_text(first.drop_last()) == Seq::<char>::empty());
    assert(prefix_text(first) == prefix_text(first.drop_last()) + step_prefix_text(first.last()));
    assert(prefix_text(first) =~= declaration_text(m));
    assert(traversals_text(first) == traversals_text(first.drop_last()) + traversal_text(
        first.last(),
    ));
    assert(traversals_text(first) =~= ".Follow("@ + m.name@ + ")"@);
    assert(route_text(start, first + rest) =~= start_text(start) + (".Follow("@ + m.name@ + ")"@)
        + traversals_text(rest));
}

} // verus!
