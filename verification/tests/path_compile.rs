use cayley::path::{Final, Morphism, Trail, Traversal, Vertex};
use cayley::selector::NodeSelector::{AnyNode, Node, Nodes};
use cayley::selector::PredicateSelector::{Predicate, Predicates, Route};
use cayley::selector::TagSelector::{AnyTag, Tag, Tags};

fn text(v: &str) -> String {
    v.to_string()
}

fn texts(vs: &[&str]) -> Vec<String> {
    vs.iter().map(|v| v.to_string()).collect()
}

// Queries without a finalization operator can be compiled and spliced into
// other queries, but not executed. A reusable path never has one.

// == Vertex ==

#[test]
fn test_basic_vertices() {
    let v = Vertex::compile_route(AnyNode, vec![]).unwrap();
    assert_eq!(format!("{}{}", v.prefix, v.value), "g.V()");

    let v = Vertex::compile_route(Node(text("foo")), vec![]).unwrap();
    assert_eq!(format!("{}{}", v.prefix, v.value), "g.V(\"foo\")");

    let v = Vertex::compile_route(Nodes(texts(&["foo", "bar"])), vec![]).unwrap();
    assert_eq!(format!("{}{}", v.prefix, v.value), "g.V(\"foo\",\"bar\")");

    let q = Vertex::compile_query(AnyNode, vec![], Final::All).unwrap();
    assert_eq!(format!("{}{}", q.prefix, q.value), "g.V().All()");

    let q = Vertex::compile_query(Node(text("foo")), vec![], Final::All).unwrap();
    assert_eq!(format!("{}{}", q.prefix, q.value), "g.V(\"foo\").All()");

    let q = Vertex::compile_query(Nodes(texts(&["foo", "bar"])), vec![], Final::All).unwrap();
    assert_eq!(format!("{}{}", q.prefix, q.value), "g.V(\"foo\",\"bar\").All()");

    let q = Vertex::compile_query(
        Nodes(texts(&["foo", "bar"])),
        vec![Traversal::Is(Node(text("foo")))],
        Final::All,
    )
    .unwrap();
    assert_eq!(
        format!("{}{}", q.prefix, q.value),
        "g.V(\"foo\",\"bar\").Is(\"foo\").All()"
    );
}

// == Morphism ==

#[test]
fn test_basic_morphism() {
    let m = Morphism::compile_reuse(
        "foobar",
        vec![
            Traversal::Out(Predicate(text("foo")), AnyTag),
            Traversal::Out(Predicate(text("bar")), AnyTag),
        ],
    )
    .unwrap();
    assert_eq!(
        format!("{}{}", m.prefix, m.value),
        "g.M().Out(\"foo\").Out(\"bar\")"
    );

    let m = Morphism::compile_reuse(
        "foobar",
        vec![
            Traversal::Out(Predicate(text("foo")), Tags(texts(&["tag1", "tag2"]))),
            Traversal::Out(Predicate(text("bar")), Tag(text("tag0"))),
        ],
    )
    .unwrap();
    assert_eq!(
        format!("{}{}", m.prefix, m.value),
        "g.M().Out(\"foo\",[\"tag1\",\"tag2\"]).Out(\"bar\",\"tag0\")"
    );
}

// == Writing ==

#[test]
fn test_writing() {}

// == Emit ==

#[test]
fn test_emit() {}

// == Basic Traversals ==

#[test]
fn test_path_out() {
    let v = Vertex::compile_route(
        Node(text("C")),
        vec![Traversal::Out(Predicate(text("follows")), AnyTag)],
    )
    .unwrap();
    assert_eq!(format!("{}{}", v.prefix, v.value), "g.V(\"C\").Out(\"follows\")");

    let v = Vertex::compile_route(
        Node(text("A")),
        vec![
            Traversal::Out(Predicate(text("follows")), AnyTag),
            Traversal::Out(Predicate(text("follows")), AnyTag),
        ],
    )
    .unwrap();
    assert_eq!(
        format!("{}{}", v.prefix, v.value),
        "g.V(\"A\").Out(\"follows\").Out(\"follows\")"
    );

    let v = Vertex::compile_route(
        Node(text("D")),
        vec![Traversal::Out(
            cayley::selector::PredicateSelector::AnyPredicate,
            AnyTag,
        )],
    )
    .unwrap();
    assert_eq!(format!("{}{}", v.prefix, v.value), "g.V(\"D\").Out()");

    let v = Vertex::compile_route(
        Node(text("D")),
        vec![Traversal::Out(Predicates(texts(&["follows", "status"])), AnyTag)],
    )
    .unwrap();
    assert_eq!(
        format!("{}{}", v.prefix, v.value),
        "g.V(\"D\").Out([\"follows\",\"status\"])"
    );

    let status = Vertex::compile_route(Node(text("status")), vec![]).unwrap();
    let v = Vertex::compile_route(
        Node(text("D")),
        vec![Traversal::Out(Route(status), Tag(text("pred")))],
    )
    .unwrap();
    assert_eq!(
        format!("{}{}", v.prefix, v.value),
        "g.V(\"D\").Out(g.V(\"status\"), \"pred\")"
    );

    let use_twice = Vertex::compile_route(
        Node(text("status")),
        vec![Traversal::OutP(Predicate(text("foo")))],
    )
    .unwrap();

    let v = Vertex::compile_route(
        Node(text("E")),
        vec![Traversal::Out(Route(use_twice.clone()), Tag(text("next")))],
    )
    .unwrap();
    assert_eq!(
        format!("{}{}", v.prefix, v.value),
        "g.V(\"E\").Out(g.V(\"status\").Out(\"foo\"), \"next\")"
    );

    let v = Vertex::compile_route(
        Node(text("E")),
        vec![Traversal::Out(Route(use_twice), Tag(text("prev")))],
    )
    .unwrap();
    assert_eq!(
        format!("{}{}", v.prefix, v.value),
        "g.V(\"E\").Out(g.V(\"status\").Out(\"foo\"), \"prev\")"
    );
}

#[test]
fn test_path_in() {
    let v = Vertex::compile_route(
        Node(text("cool_person")),
        vec![Traversal::In(Predicate(text("status")), AnyTag)],
    )
    .unwrap();
    assert_eq!(
        format!("{}{}", v.prefix, v.value),
        "g.V(\"cool_person\").In(\"status\")"
    );

    let v = Vertex::compile_route(
        Node(text("B")),
        vec![Traversal::In(Predicate(text("follows")), AnyTag)],
    )
    .unwrap();
    assert_eq!(format!("{}{}", v.prefix, v.value), "g.V(\"B\").In(\"follows\")");

    let v = Vertex::compile_route(
        Node(text("E")),
        vec![
            Traversal::Out(Predicate(text("follows")), AnyTag),
            Traversal::In(Predicate(text("follows")), AnyTag),
        ],
    )
    .unwrap();
    assert_eq!(
        format!("{}{}", v.prefix, v.value),
        "g.V(\"E\").Out(\"follows\").In(\"follows\")"
    );
}

#[test]
fn test_path_both() {
    let v = Vertex::compile_route(
        Node(text("F")),
        vec![Traversal::Both(Predicate(text("follows")), AnyTag)],
    )
    .unwrap();
    assert_eq!(format!("{}{}", v.prefix, v.value), "g.V(\"F\").Both(\"follows\")");
}

#[test]
fn test_path_is() {
    let v = Vertex::compile_route(
        AnyNode,
        vec![
            Traversal::Out(Predicate(text("follows")), AnyTag),
            Traversal::Is(Node(text("B"))),
        ],
    )
    .unwrap();
    assert_eq!(
        format!("{}{}", v.prefix, v.value),
        "g.V().Out(\"follows\").Is(\"B\")"
    );

    let v = Vertex::compile_route(
        AnyNode,
        vec![
            Traversal::Out(Predicate(text("follows")), AnyTag),
            Traversal::Is(Nodes(texts(&["B", "C"]))),
        ],
    )
    .unwrap();
    assert_eq!(
        format!("{}{}", v.prefix, v.value),
        "g.V().Out(\"follows\").Is(\"B\",\"C\")"
    );
}

#[test]
fn test_path_has() {
    let v = Vertex::compile_route(
        AnyNode,
        vec![Traversal::Has(Predicate(text("follows")), Node(text("B")))],
    )
    .unwrap();
    assert_eq!(
        format!("{}{}", v.prefix, v.value),
        "g.V().Has(\"follows\",\"B\")"
    );
}

// == Tagging ==

#[test]
fn test_path_tag_as() {
    let v = Vertex::compile_route(
        AnyNode,
        vec![
            Traversal::As(Tag(text("start"))),
            Traversal::Out(Predicate(text("status")), AnyTag),
        ],
    )
    .unwrap();
    assert_eq!(
        format!("{}{}", v.prefix, v.value),
        "g.V().As(\"start\").Out(\"status\")"
    );

    let v = Vertex::compile_route(
        AnyNode,
        vec![
            Traversal::TagWith(Tags(texts(&["foo", "bar"]))),
            Traversal::Out(Predicate(text("status")), AnyTag),
        ],
    )
    .unwrap();
    assert_eq!(
        format!("{}{}", v.prefix, v.value),
        "g.V().As(\"foo\",\"bar\").Out(\"status\")"
    );
}

#[test]
fn test_path_back() {
    let v = Vertex::compile_route(
        AnyNode,
        vec![
            Traversal::As(Tag(text("start"))),
            Traversal::Out(Predicate(text("status")), AnyTag),
            Traversal::Back(Tag(text("start"))),
            Traversal::In(Predicate(text("follows")), AnyTag),
        ],
    )
    .unwrap();
    assert_eq!(
        format!("{}{}", v.prefix, v.value),
        "g.V().As(\"start\").Out(\"status\").Back(\"start\").In(\"follows\")"
    );
}

#[test]
fn test_path_save() {
    let v = Vertex::compile_route(
        Nodes(texts(&["D", "B"])),
        vec![Traversal::Save(Predicate(text("follows")), Tag(text("target")))],
    )
    .unwrap();
    assert_eq!(
        format!("{}{}", v.prefix, v.value),
        "g.V(\"D\",\"B\").Save(\"follows\",\"target\")"
    );
}

// == Joining ==

#[test]
fn test_path_intersect_and() {
    let c_follows = Vertex::compile_route(
        Node(text("C")),
        vec![Traversal::Out(Predicate(text("follows")), AnyTag)],
    )
    .unwrap();
    let d_follows = Vertex::compile_route(
        Node(text("D")),
        vec![Traversal::Out(Predicate(text("follows")), AnyTag)],
    )
    .unwrap();

    let joined = c_follows.add(
        &Trail::compile_path(vec![Traversal::Intersect(d_follows.clone())]).unwrap(),
    );
    assert_eq!(
        format!("{}{}", joined.prefix, joined.value),
        "g.V(\"C\").Out(\"follows\").And(g.V(\"D\").Out(\"follows\"))"
    );

    let joined = c_follows.add(&Trail::compile_path(vec![Traversal::And(d_follows)]).unwrap());
    assert_eq!(
        format!("{}{}", joined.prefix, joined.value),
        "g.V(\"C\").Out(\"follows\").And(g.V(\"D\").Out(\"follows\"))"
    );
}

#[test]
fn test_path_union_or() {
    let c_follows = Vertex::compile_route(
        Node(text("C")),
        vec![Traversal::Out(Predicate(text("follows")), AnyTag)],
    )
    .unwrap();
    let d_follows = Vertex::compile_route(
        Node(text("D")),
        vec![Traversal::Out(Predicate(text("follows")), AnyTag)],
    )
    .unwrap();

    let joined = c_follows.add(
        &Trail::compile_path(vec![Traversal::Union(d_follows.clone())]).unwrap(),
    );
    assert_eq!(
        format!("{}{}", joined.prefix, joined.value),
        "g.V(\"C\").Out(\"follows\").Or(g.V(\"D\").Out(\"follows\"))"
    );

    let joined = c_follows.add(&Trail::compile_path(vec![Traversal::Or(d_follows)]).unwrap());
    assert_eq!(
        format!("{}{}", joined.prefix, joined.value),
        "g.V(\"C\").Out(\"follows\").Or(g.V(\"D\").Out(\"follows\"))"
    );
}

// == Morphisms ==

#[test]
fn test_path_follow() {
    let friend_of_friend = Morphism::compile_reuse(
        "friendOfFriend",
        vec![
            Traversal::Out(Predicate(text("follows")), AnyTag),
            Traversal::Out(Predicate(text("follows")), AnyTag),
        ],
    )
    .unwrap();
    assert_eq!(
        format!("{}{}", friend_of_friend.prefix, friend_of_friend.value),
        "g.M().Out(\"follows\").Out(\"follows\")"
    );

    let v = Vertex::compile_route(
        Node(text("C")),
        vec![
            Traversal::Follow(friend_of_friend),
            Traversal::Has(Predicate(text("status")), Node(text("cool_person"))),
        ],
    )
    .unwrap();
    assert_eq!(
        format!("{}{}", v.prefix, v.value),
        "var friendOfFriend = g.M().Out(\"follows\").Out(\"follows\");g.V(\"C\").Follow(friendOfFriend).Has(\"status\",\"cool_person\")"
    );
}

#[test]
fn test_path_followr() {
    let friend_of_friend = Morphism::compile_reuse(
        "friendOfFriend",
        vec![
            Traversal::Out(Predicate(text("follows")), AnyTag),
            Traversal::Out(Predicate(text("follows")), AnyTag),
        ],
    )
    .unwrap();

    let v = Vertex::compile_route(
        AnyNode,
        vec![
            Traversal::Has(Predicate(text("status")), Node(text("cool_person"))),
            Traversal::FollowR(friend_of_friend),
        ],
    )
    .unwrap();
    assert_eq!(
        format!("{}{}", v.prefix, v.value),
        "var friendOfFriend = g.M().Out(\"follows\").Out(\"follows\");g.V().Has(\"status\",\"cool_person\").FollowR(friendOfFriend)"
    );
}

// == Query finals ==

#[test]
fn test_query_finals() {
    let q = Vertex::compile_query(
        AnyNode,
        vec![Traversal::Out(Predicate(text("follows")), AnyTag)],
        Final::All,
    )
    .unwrap();
    assert_eq!(format!("{}{}", q.prefix, q.value), "g.V().Out(\"follows\").All()");

    let q = Vertex::compile_query(
        Node(text("foo")),
        vec![Traversal::Out(Predicate(text("follows")), AnyTag)],
        Final::GetLimit(5),
    )
    .unwrap();
    assert_eq!(
        format!("{}{}", q.prefix, q.value),
        "g.V(\"foo\").Out(\"follows\").GetLimit(5)"
    );
}

// == Other ==

#[test]
fn test_inclusive_vertices() {
    let v_1 = Vertex::compile_route(
        AnyNode,
        vec![
            Traversal::Out(Predicate(text("follows")), AnyTag),
            Traversal::In(Predicate(text("follows")), AnyTag),
        ],
    )
    .unwrap();
    let v_2 = Vertex::compile_route(
        Node(text("bar")),
        vec![
            Traversal::Has(Predicate(text("status")), Node(text("cool_person"))),
            Traversal::And(v_1),
        ],
    )
    .unwrap();

    let q = Vertex::compile_query(
        Node(text("foo")),
        vec![Traversal::Union(v_2.clone())],
        Final::All,
    )
    .unwrap();
    assert_eq!(
        format!("{}{}", q.prefix, q.value),
        "g.V(\"foo\").Or(g.V(\"bar\").Has(\"status\",\"cool_person\").And(g.V().Out(\"follows\").In(\"follows\"))).All()"
    );

    let v = Vertex::compile_route(Node(text("foo")), vec![Traversal::Or(v_2)]).unwrap();
    assert_eq!(
        format!("{}{}", v.prefix, v.value),
        "g.V(\"foo\").Or(g.V(\"bar\").Has(\"status\",\"cool_person\").And(g.V().Out(\"follows\").In(\"follows\")))"
    );
}

#[test]
fn test_inclusive_moprphisms() {
    let m_1 = Morphism::compile_reuse(
        "m1",
        vec![
            Traversal::Out(Predicate(text("follows")), AnyTag),
            Traversal::Out(Predicate(text("follows")), AnyTag),
        ],
    )
    .unwrap();
    let m_2 = Morphism::compile_reuse(
        "m2",
        vec![
            Traversal::Has(Predicate(text("status")), Node(text("cool_person"))),
            Traversal::FollowR(m_1),
        ],
    )
    .unwrap();

    let q = Vertex::compile_query(
        Node(text("foo")),
        vec![Traversal::Follow(m_2.clone())],
        Final::All,
    )
    .unwrap();
    assert_eq!(
        format!("{}{}", q.prefix, q.value),
        "var m1 = g.M().Out(\"follows\").Out(\"follows\");var m2 = g.M().Has(\"status\",\"cool_person\").FollowR(m1);g.V(\"foo\").Follow(m2).All()"
    );

    let v = Vertex::compile_route(Node(text("foo")), vec![Traversal::Follow(m_2)]).unwrap();
    assert_eq!(
        format!("{}{}", v.prefix, v.value),
        "var m1 = g.M().Out(\"follows\").Out(\"follows\");var m2 = g.M().Has(\"status\",\"cool_person\").FollowR(m1);g.V(\"foo\").Follow(m2)"
    );
}
