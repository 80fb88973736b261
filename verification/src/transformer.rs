//! The transformer: a walk that rewrites every function of a tree in
//! place. Three rules can be switched on, each on its own, and are applied
//! in a fixed order: a logging statement is put at the head of the body,
//! the function is made asynchronous, and its name gets a prefix. Nodes of
//! any other kind are kept as they are, and so are their attributes; only
//! the functions nested in them are rewritten. A method of an
//! implementation block or of a trait is such a node: the rules are for
//! functions that stand by themselves.
use crate::tree::{lemma_body_view, nodes_view, Node, NodeKind, NodeView, Tree};
use vstd::prelude::*;
use vstd::string::*;

verus! {

/// Which rules the transformer applies.
#[derive(Clone, Copy, Debug, PartialEq, Eq, Structural)]
pub struct RustTransformer {
    pub add_logging: bool,
    pub make_async: bool,
    pub rename_functions: bool,
}

/// The statement that reports the entry into the function `fn_name`.
pub open spec fn log_statement(fn_name: Seq<char>) -> NodeView {
    NodeView::statement("println!(\"Entering function: "@ + fn_name + "\")"@)
}

/// The name that the renaming rule gives to the function `fn_name`.
pub open spec fn transformed_name(fn_name: Seq<char>) -> Seq<char> {
    "transformed_"@ + fn_name
}

/// The first rule: the logging statement goes to the head of the body, in
/// front of the statements that are there.
pub open spec fn with_logging(node: NodeView) -> NodeView {
    NodeView { body: seq![log_statement(node.name)] + node.body, ..node }
}

/// The second rule: the function is asynchronous afterwards.
pub open spec fn made_async(node: NodeView) -> NodeView {
    NodeView { is_async: true, ..node }
}

/// The third rule: the name gets the prefix.
pub open spec fn renamed(node: NodeView) -> NodeView {
    NodeView { name: transformed_name(node.name), ..node }
}

/// The rules that are switched on, applied to one function in their fixed
/// order. The logging statement names the function as it was called
/// before the renaming.
pub open spec fn apply_rules(rules: RustTransformer, node: NodeView) -> NodeView {
    let logged = if rules.add_logging {
        with_logging(node)
    } else {
        node
    };
    let toggled = if rules.make_async {
        made_async(logged)
    } else {
        logged
    };
    if rules.rename_functions {
        renamed(toggled)
    } else {
        toggled
    }
}

/// The rewritten form of a node: its children rewritten, and, where it is
/// a function, the rules applied to it.
pub open spec fn rewrite(rules: RustTransformer, node: NodeView) -> NodeView
    decreases node,
{
    let inner = node.with_body(rewrite_all(rules, node.body));
    if node.kind == NodeKind::Function {
        apply_rules(rules, inner)
    } else {
        inner
    }
}

/// The rewritten form of a forest: each node rewritten, in place.
pub open spec fn rewrite_all(rules: RustTransformer, nodes: Seq<NodeView>) -> Seq<NodeView>
    decreases nodes,
{
    Seq::new(
        nodes.len(),
        |i: int|
            if 0 <= i < nodes.len() {
                rewrite(rules, nodes[i])
            } else {
                arbitrary()
            },
    )
}

impl RustTransformer {
    /// The default rules: logging on, the other two off.
    pub fn new() -> (rules: RustTransformer)
        ensures
            rules == (RustTransformer {
                add_logging: true,
                make_async: false,
                rename_functions: false,
            }),
    {
        RustTransformer { add_logging: true, make_async: false, rename_functions: false }
    }

    /// The statement that reports the entry into the function `fn_name`.
    pub fn create_log_statement(&self, fn_name: &str) -> (statement: Node)
        ensures
            statement@ == log_statement(fn_name@),
    {
        let mut text = String::from_str("println!(\"Entering function: ");
        text.append(fn_name);
        text.append("\")");
        Node::statement(text.as_str())
    }

    /// Applies the rules that are switched on to `node` itself, where it
    /// is a function. Its children are not visited, and a node of another
    /// kind is left as it is.
    pub fn apply_to(&self, node: &mut Node)
        ensures
            final(node)@ == if old(node)@.kind == NodeKind::Function {
                apply_rules(*self, old(node)@)
            } else {
                old(node)@
            },
    {
        if node.kind == NodeKind::Function {
            proof {
                lemma_body_view(*node);
            }
            if self.add_logging {
                let statement = self.create_log_statement(node.name.as_str());
                node.body.insert(0, statement);
                proof {
                    lemma_body_view(*node);
                    assert(nodes_view(node.body@) =~= seq![log_statement(old(node)@.name)]
                        + nodes_view(old(node).body@));
                }
            }
            if self.make_async {
                node.is_async = true;
            }
            if self.rename_functions {
                let mut name = String::from_str("transformed_");
                name.append(node.name.as_str());
                node.name = name;
            }
            proof {
                lemma_body_view(*node);
            }
        }
    }

    /// Rewrites `node` and everything below it: where it is a function the
    /// rules are applied to it, and every function nested in it is
    /// rewritten in the same way.
    pub fn visit_item_fn_mut(&self, node: &mut Node)
        ensures
            final(node)@ == rewrite(*self, old(node)@),
        decreases *old(node),
    {
        proof {
            lemma_body_view(*node);
        }
        let mut i: usize = 0;
        while i < node.body.len()
            invariant
                i <= node.body@.len(),
                node.body@.len() == old(node).body@.len(),
                node@ == old(node)@.with_body(nodes_view(node.body@)),
                forall|k: int| 0 <= k < i ==> (#[trigger] node.body@[k])@ == rewrite(
                    *self,
                    old(node).body@[k]@,
                ),
                forall|k: int| i <= k < node.body@.len() ==> #[trigger] node.body@[k] == old(
                    node,
                ).body@[k],
            decreases node.body@.len() - i,
        {
            let ghost before = node.body@;
            self.visit_item_fn_mut(&mut node.body[i]);
            proof {
                lemma_body_view(*node);
                assert(node.body@ =~= before.update(i as int, node.body@[i as int]));
            }
            i = i + 1;
        }
        proof {
            assert(nodes_view(node.body@) =~= rewrite_all(*self, old(node)@.body));
        }
        self.apply_to(node);
    }

    /// Rewrites every function of `tree`, wherever it is nested.
    pub fn visit_file_mut(&self, tree: &mut Tree)
        ensures
            final(tree)@ == rewrite_all(*self, old(tree)@),
    {
        let mut i: usize = 0;
        while i < tree.nodes.len()
            invariant
                i <= tree.nodes@.len(),
                tree.nodes@.len() == old(tree).nodes@.len(),
                forall|k: int| 0 <= k < i ==> (#[trigger] tree.nodes@[k])@ == rewrite(
                    *self,
                    old(tree).nodes@[k]@,
                ),
                forall|k: int| i <= k < tree.nodes@.len() ==> #[trigger] tree.nodes@[k] == old(
                    tree,
                ).nodes@[k],
            decreases tree.nodes@.len() - i,
        {
            self.visit_item_fn_mut(&mut tree.nodes[i]);
            i = i + 1;
        }
        assert(tree@ =~= rewrite_all(*self, old(tree)@));
    }

    /// The tree with every function rewritten.
    pub fn transform(&self, tree: Tree) -> (rewritten: Tree)
        ensures
            rewritten@ == rewrite_all(*self, tree@),
    {
        let mut rewritten = tree;
        self.visit_file_mut(&mut rewritten);
        rewritten
    }
}

/// Whether neither the node nor anything below it is a function.
pub open spec fn function_free(node: NodeView) -> bool
    decreases node,
{
    &&& node.kind != NodeKind::Function
    &&& forall|i: int| 0 <= i < node.body.len() ==> function_free(#[trigger] node.body[i])
}

/// A subtree without functions passes through the transformer unchanged,
/// whatever the rules.
pub proof fn lemma_rewrite_keeps_other_nodes(rules: RustTransformer, node: NodeView)
    requires
        function_free(node),
    ensures
        rewrite(rules, node) == node,
    decreases node,
{
    assert forall|i: int| 0 <= i < node.body.len() implies rewrite(rules, node.body[i])
        == node.body[i] by {
        assert(function_free(node.body[i]));
        lemma_rewrite_keeps_other_nodes(rules, node.body[i]);
    }
    assert(rewrite_all(rules, node.body) =~= node.body);
}

/// With no rule switched on the transformer changes nothing.
pub proof fn lemma_rewrite_without_rules(node: NodeView)
    ensures
        rewrite(
            RustTransformer { add_logging: false, make_async: false, rename_functions: false },
            node,
        ) == node,
    decreases node,
{
    let rules = RustTransformer { add_logging: false, make_async: false, rename_functions: false };
    assert forall|i: int| 0 <= i < node.body.len() implies rewrite(rules, node.body[i])
        == node.body[i] by {
        lemma_rewrite_without_rules(node.body[i]);
    }
    assert(rewrite_all(rules, node.body) =~= node.body);
}

/// The logging rule inserts at the head and nowhere else: a rewritten
/// function starts with the logging statement, which names the function as
/// it was called before, and goes on with its former statements, each
/// rewritten, in their former order.
pub proof fn lemma_logging_goes_first(rules: RustTransformer, node: NodeView)
    requires
        rules.add_logging,
        node.kind == NodeKind::Function,
    ensures
        rewrite(rules, node).body.len() == node.body.len() + 1,
        rewrite(rules, node).body[0] == log_statement(node.name),
        forall|i: int|
            0 <= i < node.body.len() ==> #[trigger] rewrite(rules, node).body[i + 1] == rewrite(
                rules,
                node.body[i],
            ),
{
}

/// Where the former statements hold no function, the logging rule keeps
/// them as they were, behind the logging statement.
pub proof fn lemma_logging_keeps_statements(rules: RustTransformer, node: NodeView)
    requires
        rules.add_logging,
        node.kind == NodeKind::Function,
        forall|i: int| 0 <= i < node.body.len() ==> function_free(#[trigger] node.body[i]),
    ensures
        rewrite(rules, node).body == seq![log_statement(node.name)] + node.body,
{
    assert forall|i: int| 0 <= i < node.body.len() implies rewrite(rules, node.body[i])
        == node.body[i] by {
        lemma_rewrite_keeps_other_nodes(rules, node.body[i]);
    }
    assert(rewrite_all(rules, node.body) =~= node.body);
}

/// The three rules touch different attributes, so the order in which they
/// are applied to a function does not show in the result, as long as the
/// logging statement is made from the name that the function had before.
pub proof fn lemma_rules_commute(node: NodeView)
    ensures
        made_async(with_logging(node)) == with_logging(made_async(node)),
        renamed(made_async(node)) == made_async(renamed(node)),
        renamed(with_logging(node)).body == with_logging(node).body,
        renamed(with_logging(node)).name == renamed(node).name,
{
}

/// The rules pass a method over: it keeps its name, its modifiers and the
/// head of its body, and only what is nested in it is rewritten.
pub proof fn lemma_rules_pass_methods(rules: RustTransformer, node: NodeView)
    requires
        node.kind == NodeKind::Method,
    ensures
        rewrite(rules, node) == node.with_body(rewrite_all(rules, node.body)),
        rewrite(rules, node).body.len() == node.body.len(),
{
}

} // verus!
