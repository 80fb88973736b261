//! The read-only visitor: a walk over every node of a tree, parent before
//! children, that hands each node to a callback and gathers what the
//! callbacks report, in the order of the walk.
use crate::tree::{borrowed_view, preorder_all, Node, NodeKind, NodeView, Tree};
use vstd::prelude::*;

verus! {

/// A callback of the walk. What it reports for a node is a function of the
/// node alone, so two walks of one tree gather the same facts.
pub trait Visit {
    /// What the callback reports.
    type Fact: DeepView;

    /// The facts reported for `node`, by their views.
    spec fn facts(&self, node: NodeView) -> Seq<<Self::Fact as DeepView>::V>;

    /// Looks at one node, not at its children.
    fn visit(&self, node: &Node) -> (found: Vec<Self::Fact>)
        ensures
            found.deep_view() == self.facts(node@),
    ;
}

/// What `report` gives for each of `nodes` in turn, one after another.
pub open spec fn collected<T>(report: spec_fn(NodeView) -> Seq<T>, nodes: Seq<NodeView>) -> Seq<T>
    decreases nodes.len(),
{
    if nodes.len() == 0 {
        Seq::empty()
    } else {
        collected(report, nodes.drop_last()) + report(nodes.last())
    }
}

/// What `visitor` reports for each of `nodes` in turn, one after another.
pub open spec fn gathered<V: Visit>(visitor: V, nodes: Seq<NodeView>) -> Seq<
    <V::Fact as DeepView>::V,
> {
    collected(|node: NodeView| visitor.facts(node), nodes)
}

/// Collecting over one more node appends what is reported for that node.
pub proof fn lemma_collected_step<T>(
    report: spec_fn(NodeView) -> Seq<T>,
    nodes: Seq<NodeView>,
    i: int,
)
    requires
        0 <= i < nodes.len(),
    ensures
        collected(report, nodes.take(i + 1)) == collected(report, nodes.take(i)) + report(
            nodes[i],
        ),
{
    assert(nodes.take(i + 1).drop_last() =~= nodes.take(i));
}

/// Reports that agree on every node collect the same facts.
pub proof fn lemma_collected_agrees<T>(
    first: spec_fn(NodeView) -> Seq<T>,
    second: spec_fn(NodeView) -> Seq<T>,
    nodes: Seq<NodeView>,
)
    requires
        forall|node: NodeView| #[trigger] first(node) == second(node),
    ensures
        collected(first, nodes) == collected(second, nodes),
{
    assert(first =~= second);
}

/// Walks every node of `tree` in pre-order and gathers what `visitor`
/// reports for each, in the order of the walk. The tree is only read.
pub fn traverse<V: Visit>(tree: &Tree, visitor: &V) -> (found: Vec<V::Fact>)
    ensures
        found.deep_view() == gathered(*visitor, preorder_all(tree@)),
{
    let walk = tree.preorder_nodes();
    let ghost nodes = preorder_all(tree@);
    let mut found: Vec<V::Fact> = Vec::new();
    let mut i: usize = 0;
    assert(nodes.take(0) =~= Seq::empty());
    assert(found.deep_view() =~= gathered(*visitor, nodes.take(0)));
    while i < walk.len()
        invariant
            i <= walk@.len(),
            nodes == preorder_all(tree@),
            borrowed_view(walk@) == nodes,
            found.deep_view() == gathered(*visitor, nodes.take(i as int)),
        decreases walk@.len() - i,
    {
        let ghost before = found.deep_view();
        let mut facts = visitor.visit(walk[i]);
        let ghost added = facts.deep_view();
        assert(added == visitor.facts(nodes[i as int])) by {
            assert(borrowed_view(walk@)[i as int] == walk@[i as int]@);
        }
        found.append(&mut facts);
        proof {
            assert(found.deep_view() =~= before + added);
            lemma_collected_step(|node: NodeView| visitor.facts(node), nodes, i as int);
        }
        i = i + 1;
    }
    assert(nodes.take(walk@.len() as int) =~= nodes);
    found
}

/// A callback registered for one kind of node: nodes of that kind go to
/// `callback`, nodes of any other kind are passed over.
pub struct OnKind<V> {
    pub kind: NodeKind,
    pub callback: V,
}

impl<V: Visit> Visit for OnKind<V> {
    type Fact = V::Fact;

    open spec fn facts(&self, node: NodeView) -> Seq<<V::Fact as DeepView>::V> {
        if node.kind == self.kind {
            self.callback.facts(node)
        } else {
            Seq::empty()
        }
    }

    fn visit(&self, node: &Node) -> (found: Vec<V::Fact>) {
        if node.kind == self.kind {
            self.callback.visit(node)
        } else {
            let found: Vec<V::Fact> = Vec::new();
            assert(found.deep_view() =~= Seq::empty());
            found
        }
    }
}

/// The callback that reports the name of each node it is handed.
pub struct Names;

impl Visit for Names {
    type Fact = String;

    open spec fn facts(&self, node: NodeView) -> Seq<Seq<char>> {
        seq![node.name]
    }

    fn visit(&self, node: &Node) -> (found: Vec<String>) {
        let mut found: Vec<String> = Vec::new();
        found.push(node.name.clone());
        assert(found.deep_view() =~= seq![node@.name]);
        found
    }
}

/// Two walks of one tree with one callback gather the same facts.
pub proof fn lemma_traverse_repeatable<V: Visit>(visitor: V, first: Tree, second: Tree)
    requires
        first@ == second@,
    ensures
        gathered(visitor, preorder_all(first@)) == gathered(visitor, preorder_all(second@)),
{
}

} // verus!
