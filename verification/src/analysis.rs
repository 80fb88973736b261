//! Two read-only analyses of a tree: how many items of each kind it holds,
//! and the signature of each of its top-level functions. Both look at
//! functions that stand by themselves; the methods of implementation
//! blocks and traits are no such functions and are passed over.
use crate::linter::ParseError;
use crate::text::{decimal, decimal_string, str_equal};
use crate::tree::{
    borrowed_view, clone_optional_text, lemma_body_view, optional_text_view, params_view,
    preorder_all, Node, NodeKind, NodeView, Param, ParamView, Tree,
};
use vstd::prelude::*;
use vstd::string::*;

verus! {

/// How many of `nodes` are of the given kind.
pub open spec fn count_kind(nodes: Seq<NodeView>, kind: NodeKind) -> nat
    decreases nodes.len(),
{
    if nodes.len() == 0 {
        0
    } else {
        count_kind(nodes.drop_last(), kind) + if nodes.last().kind == kind {
            1nat
        } else {
            0nat
        }
    }
}

/// There are no more nodes of one kind than nodes.
pub proof fn lemma_count_kind_bound(nodes: Seq<NodeView>, kind: NodeKind)
    ensures
        count_kind(nodes, kind) <= nodes.len(),
    decreases nodes.len(),
{
    if nodes.len() > 0 {
        lemma_count_kind_bound(nodes.drop_last(), kind);
    }
}

/// The tally of the items of a tree by kind.
#[derive(Clone, Copy, Debug, PartialEq, Eq, Structural)]
pub struct RustCodeVisitor {
    pub fn_count: usize,
    pub struct_count: usize,
    pub enum_count: usize,
    pub trait_count: usize,
    pub impl_count: usize,
    pub macro_count: usize,
}

impl RustCodeVisitor {
    /// Whether every counter can take the nodes of its kind among `nodes`.
    pub open spec fn has_room_for(self, nodes: Seq<NodeView>) -> bool {
        &&& self.fn_count + count_kind(nodes, NodeKind::Function) <= usize::MAX
        &&& self.struct_count + count_kind(nodes, NodeKind::Struct) <= usize::MAX
        &&& self.enum_count + count_kind(nodes, NodeKind::Enum) <= usize::MAX
        &&& self.trait_count + count_kind(nodes, NodeKind::Trait) <= usize::MAX
        &&& self.impl_count + count_kind(nodes, NodeKind::Impl) <= usize::MAX
        &&& self.macro_count + count_kind(nodes, NodeKind::Macro) <= usize::MAX
    }

    /// Whether `self` is `before` with each of `nodes` counted under its
    /// kind. Nodes of a kind without a counter are not counted; a method
    /// is such a node, it does not count as a function.
    pub open spec fn is_tally(self, before: RustCodeVisitor, nodes: Seq<NodeView>) -> bool {
        &&& self.fn_count == before.fn_count + count_kind(nodes, NodeKind::Function)
        &&& self.struct_count == before.struct_count + count_kind(nodes, NodeKind::Struct)
        &&& self.enum_count == before.enum_count + count_kind(nodes, NodeKind::Enum)
        &&& self.trait_count == before.trait_count + count_kind(nodes, NodeKind::Trait)
        &&& self.impl_count == before.impl_count + count_kind(nodes, NodeKind::Impl)
        &&& self.macro_count == before.macro_count + count_kind(nodes, NodeKind::Macro)
    }

    /// A tally with every counter at zero.
    pub fn new() -> (visitor: RustCodeVisitor)
        ensures
            visitor == (RustCodeVisitor {
                fn_count: 0,
                struct_count: 0,
                enum_count: 0,
                trait_count: 0,
                impl_count: 0,
                macro_count: 0,
            }),
    {
        RustCodeVisitor {
            fn_count: 0,
            struct_count: 0,
            enum_count: 0,
            trait_count: 0,
            impl_count: 0,
            macro_count: 0,
        }
    }

    /// Counts one node, not its children.
    pub fn visit_node(&mut self, node: &Node)
        requires
            old(self).has_room_for(seq![node@]),
        ensures
            final(self).is_tally(*old(self), seq![node@]),
    {
        proof {
            let one = seq![node@];
            assert(one.drop_last() =~= Seq::empty());
            assert(count_kind(one.drop_last(), NodeKind::Function) == 0);
            assert(count_kind(one.drop_last(), NodeKind::Struct) == 0);
            assert(count_kind(one.drop_last(), NodeKind::Enum) == 0);
            assert(count_kind(one.drop_last(), NodeKind::Trait) == 0);
            assert(count_kind(one.drop_last(), NodeKind::Impl) == 0);
            assert(count_kind(one.drop_last(), NodeKind::Macro) == 0);
        }
        match node.kind {
            NodeKind::Function => {
                self.fn_count = self.fn_count + 1;
            },
            NodeKind::Struct => {
                self.struct_count = self.struct_count + 1;
            },
            NodeKind::Enum => {
                self.enum_count = self.enum_count + 1;
            },
            NodeKind::Trait => {
                self.trait_count = self.trait_count + 1;
            },
            NodeKind::Impl => {
                self.impl_count = self.impl_count + 1;
            },
            NodeKind::Macro => {
                self.macro_count = self.macro_count + 1;
            },
            _ => {},
        }
    }

    fn visit_walk(&mut self, walk: &Vec<&Node>)
        requires
            old(self).has_room_for(borrowed_view(walk@)),
        ensures
            final(self).is_tally(*old(self), borrowed_view(walk@)),
    {
        let ghost nodes = borrowed_view(walk@);
        let mut i: usize = 0;
        assert(nodes.take(0) =~= Seq::empty());
        while i < walk.len()
            invariant
                i <= walk@.len(),
                nodes == borrowed_view(walk@),
                old(self).has_room_for(nodes),
                self.is_tally(*old(self), nodes.take(i as int)),
            decreases walk@.len() - i,
        {
            proof {
                lemma_count_kind_step(nodes, i as int, NodeKind::Function);
                lemma_count_kind_step(nodes, i as int, NodeKind::Struct);
                lemma_count_kind_step(nodes, i as int, NodeKind::Enum);
                lemma_count_kind_step(nodes, i as int, NodeKind::Trait);
                lemma_count_kind_step(nodes, i as int, NodeKind::Impl);
                lemma_count_kind_step(nodes, i as int, NodeKind::Macro);
                assert(nodes[i as int] == walk@[i as int]@);
            }
            self.visit_node(walk[i]);
            i = i + 1;
        }
        assert(nodes.take(walk@.len() as int) =~= nodes);
    }

    /// Counts every node of `tree`, wherever it is nested.
    pub fn visit_file(&mut self, tree: &Tree)
        requires
            old(self).has_room_for(preorder_all(tree@)),
        ensures
            final(self).is_tally(*old(self), preorder_all(tree@)),
    {
        let walk = tree.preorder_nodes();
        self.visit_walk(&walk);
    }

    /// The tally of `tree`, counted from zero.
    pub fn survey(tree: &Tree) -> (visitor: RustCodeVisitor)
        ensures
            visitor.is_tally(RustCodeVisitor::new_spec(), preorder_all(tree@)),
    {
        let walk = tree.preorder_nodes();
        let mut visitor = RustCodeVisitor::new();
        let size = walk.len();
        proof {
            let nodes = borrowed_view(walk@);
            assert(nodes.len() == size);
            lemma_count_kind_bound(nodes, NodeKind::Function);
            lemma_count_kind_bound(nodes, NodeKind::Struct);
            lemma_count_kind_bound(nodes, NodeKind::Enum);
            lemma_count_kind_bound(nodes, NodeKind::Trait);
            lemma_count_kind_bound(nodes, NodeKind::Impl);
            lemma_count_kind_bound(nodes, NodeKind::Macro);
        }
        visitor.visit_walk(&walk);
        visitor
    }

    /// The tally with every counter at zero.
    pub open spec fn new_spec() -> RustCodeVisitor {
        RustCodeVisitor {
            fn_count: 0,
            struct_count: 0,
            enum_count: 0,
            trait_count: 0,
            impl_count: 0,
            macro_count: 0,
        }
    }

    /// The lines that show the tally.
    pub open spec fn stats(self) -> Seq<Seq<char>> {
        seq![
            "=== Rust Code Statistics ==="@,
            "Functions: "@ + decimal(self.fn_count as nat),
            "Structs:   "@ + decimal(self.struct_count as nat),
            "Enums:     "@ + decimal(self.enum_count as nat),
            "Traits:    "@ + decimal(self.trait_count as nat),
            "Impls:     "@ + decimal(self.impl_count as nat),
            "Macros:    "@ + decimal(self.macro_count as nat),
            "==========================="@,
        ]
    }

    /// Writes the lines that show the tally.
    pub fn print_stats(&self) -> (lines: Vec<String>)
        ensures
            lines.deep_view() == self.stats(),
    {
        let mut lines: Vec<String> = Vec::new();
        lines.push(String::from_str("=== Rust Code Statistics ==="));
        lines.push(labelled("Functions: ", self.fn_count));
        lines.push(labelled("Structs:   ", self.struct_count));
        lines.push(labelled("Enums:     ", self.enum_count));
        lines.push(labelled("Traits:    ", self.trait_count));
        lines.push(labelled("Impls:     ", self.impl_count));
        lines.push(labelled("Macros:    ", self.macro_count));
        lines.push(String::from_str("==========================="));
        assert(lines.deep_view() =~= self.stats());
        lines
    }
}

/// Counting one more node adds what that node counts alone, and stays
/// within the count of all nodes.
pub proof fn lemma_count_kind_step(nodes: Seq<NodeView>, i: int, kind: NodeKind)
    requires
        0 <= i < nodes.len(),
    ensures
        count_kind(nodes.take(i + 1), kind) == count_kind(nodes.take(i), kind) + count_kind(
            seq![nodes[i]],
            kind,
        ),
        count_kind(nodes.take(i + 1), kind) <= count_kind(nodes, kind),
{
    assert(nodes.take(i + 1).drop_last() =~= nodes.take(i));
    assert(seq![nodes[i]].drop_last() =~= Seq::<NodeView>::empty());
    assert(count_kind(seq![nodes[i]].drop_last(), kind) == 0);
    lemma_count_kind_grows(nodes, i + 1, kind);
}

/// The first `k` nodes hold no more nodes of one kind than all of them.
pub proof fn lemma_count_kind_grows(nodes: Seq<NodeView>, k: int, kind: NodeKind)
    requires
        0 <= k <= nodes.len(),
    ensures
        count_kind(nodes.take(k), kind) <= count_kind(nodes, kind),
    decreases nodes.len() - k,
{
    if k < nodes.len() {
        assert(nodes.take(k + 1).drop_last() =~= nodes.take(k));
        lemma_count_kind_grows(nodes, k + 1, kind);
    } else {
        assert(nodes.take(k) =~= nodes);
    }
}

fn labelled(label: &str, count: usize) -> (line: String)
    ensures
        line@ == label@ + decimal(count as nat),
{
    let mut line = String::from_str(label);
    line.append(decimal_string(count as u64).as_str());
    line
}

/// Whether a parameter is the receiver of a method.
pub open spec fn is_receiver(param: ParamView) -> bool {
    param.name == "self"@
}

/// An argument as the analysis shows it: a name and a type.
#[derive(Debug, PartialEq, Eq)]
pub struct Argument {
    pub name: String,
    pub ty: String,
}

/// The view of an [`Argument`].
pub struct ArgumentView {
    pub name: Seq<char>,
    pub ty: Seq<char>,
}

impl View for Argument {
    type V = ArgumentView;

    open spec fn view(&self) -> ArgumentView {
        ArgumentView { name: self.name@, ty: self.ty@ }
    }
}

impl DeepView for Argument {
    type V = ArgumentView;

    open spec fn deep_view(&self) -> ArgumentView {
        self@
    }
}

/// What stands for a pattern that is no name.
pub open spec fn unnamed() -> Seq<char> {
    "_"@
}

/// What stands for a type that is no path.
pub open spec fn unknown_type() -> Seq<char> {
    "unknown"@
}

/// How the analysis shows a parameter: under its name where its pattern is
/// a plain name, else under `_`; with its type where that is a path, else
/// with `unknown`.
pub open spec fn argument_of(param: ParamView) -> ArgumentView {
    ArgumentView {
        name: if param.is_name {
            param.name
        } else {
            unnamed()
        },
        ty: if param.is_path {
            param.ty
        } else {
            unknown_type()
        },
    }
}

/// The parameters without the receiver, in their order, each as the
/// analysis shows it.
pub open spec fn typed_params(params: Seq<ParamView>) -> Seq<ArgumentView>
    decreases params.len(),
{
    if params.len() == 0 {
        Seq::empty()
    } else if is_receiver(params.last()) {
        typed_params(params.drop_last())
    } else {
        typed_params(params.drop_last()).push(argument_of(params.last()))
    }
}

/// What the analysis keeps of a function.
#[derive(Debug, PartialEq, Eq)]
pub struct FunctionInfo {
    pub name: String,
    /// The parameters with their types, the receiver left out.
    pub args: Vec<Argument>,
    pub return_type: Option<String>,
    pub is_async: bool,
    pub is_unsafe: bool,
    pub is_public: bool,
    /// The number of statements directly in the body.
    pub line_count: usize,
}

/// The view of a [`FunctionInfo`].
pub struct FunctionInfoView {
    pub name: Seq<char>,
    pub args: Seq<ArgumentView>,
    pub return_type: Option<Seq<char>>,
    pub is_async: bool,
    pub is_unsafe: bool,
    pub is_public: bool,
    pub line_count: nat,
}

impl View for FunctionInfo {
    type V = FunctionInfoView;

    open spec fn view(&self) -> FunctionInfoView {
        FunctionInfoView {
            name: self.name@,
            args: self.args.deep_view(),
            return_type: optional_text_view(self.return_type),
            is_async: self.is_async,
            is_unsafe: self.is_unsafe,
            is_public: self.is_public,
            line_count: self.line_count as nat,
        }
    }
}

impl DeepView for FunctionInfo {
    type V = FunctionInfoView;

    open spec fn deep_view(&self) -> FunctionInfoView {
        self@
    }
}

/// What the analysis keeps of the function `node`.
pub open spec fn function_info(node: NodeView) -> FunctionInfoView {
    FunctionInfoView {
        name: node.name,
        args: typed_params(node.params),
        return_type: node.return_type,
        is_async: node.is_async,
        is_unsafe: node.is_unsafe,
        is_public: node.is_public,
        line_count: node.body.len(),
    }
}

/// The functions among `nodes`, each as the analysis keeps it, in order.
pub open spec fn function_infos(nodes: Seq<NodeView>) -> Seq<FunctionInfoView>
    decreases nodes.len(),
{
    if nodes.len() == 0 {
        Seq::empty()
    } else if nodes.last().kind == NodeKind::Function {
        function_infos(nodes.drop_last()).push(function_info(nodes.last()))
    } else {
        function_infos(nodes.drop_last())
    }
}

/// How a truth value is written.
pub open spec fn truth(flag: bool) -> Seq<char> {
    if flag {
        "true"@
    } else {
        "false"@
    }
}

/// The lines that show the arguments, one line each.
pub open spec fn argument_lines(args: Seq<ArgumentView>) -> Seq<Seq<char>> {
    Seq::new(args.len(), |i: int| "    "@ + args[i].name + ": "@ + args[i].ty)
}

/// The lines that show one function; the last of them is empty.
pub open spec fn function_lines(info: FunctionInfoView) -> Seq<Seq<char>> {
    seq![
        "Function: "@ + info.name,
        "  Public: "@ + truth(info.is_public),
        "  Async: "@ + truth(info.is_async),
        "  Unsafe: "@ + truth(info.is_unsafe),
        "  Arguments:"@,
    ] + argument_lines(info.args) + seq![
        "  Return type: "@ + match info.return_type {
            Some(ty) => ty,
            None => "()"@,
        },
        "  Approximate size: "@ + decimal(info.line_count) + " statements"@,
        Seq::<char>::empty(),
    ]
}

/// The lines that show the functions, one after another.
pub open spec fn all_function_lines(infos: Seq<FunctionInfoView>) -> Seq<Seq<char>>
    decreases infos.len(),
{
    if infos.len() == 0 {
        Seq::empty()
    } else {
        all_function_lines(infos.drop_last()) + function_lines(infos.last())
    }
}

/// The lines that show an analysis: a heading, then the functions.
pub open spec fn analysis_lines(infos: Seq<FunctionInfoView>) -> Seq<Seq<char>> {
    seq!["=== Function Analysis ==="@] + all_function_lines(infos)
}

fn truth_text(flag: bool) -> (text: &'static str)
    ensures
        text@ == truth(flag),
{
    if flag {
        "true"
    } else {
        "false"
    }
}

fn argument_from(param: &Param) -> (argument: Argument)
    ensures
        argument@ == argument_of(param@),
{
    Argument {
        name: if param.is_name {
            param.name.clone()
        } else {
            String::from_str("_")
        },
        ty: if param.is_path {
            param.ty.clone()
        } else {
            String::from_str("unknown")
        },
    }
}

fn typed_params_of(params: &Vec<Param>) -> (typed: Vec<Argument>)
    ensures
        typed.deep_view() == typed_params(params_view(params@)),
{
    let ghost views = params_view(params@);
    let mut typed: Vec<Argument> = Vec::new();
    let mut i: usize = 0;
    assert(views.take(0) =~= Seq::empty());
    assert(typed.deep_view() =~= Seq::empty());
    while i < params.len()
        invariant
            i <= params@.len(),
            views == params_view(params@),
            typed.deep_view() == typed_params(views.take(i as int)),
        decreases params@.len() - i,
    {
        let ghost before = typed.deep_view();
        proof {
            assert(views.take(i + 1).drop_last() =~= views.take(i as int));
            assert(views.take(i + 1).last() == params@[i as int]@);
        }
        if !str_equal(params[i].name.as_str(), "self") {
            typed.push(argument_from(&params[i]));
            assert(typed.deep_view() =~= before.push(argument_of(params@[i as int]@)));
        }
        i = i + 1;
    }
    assert(views.take(params@.len() as int) =~= views);
    typed
}

/// The signatures of functions, in the order in which they were analysed.
#[derive(Debug, PartialEq, Eq)]
pub struct FunctionAnalyzer {
    pub functions: Vec<FunctionInfo>,
}

impl View for FunctionAnalyzer {
    type V = Seq<FunctionInfoView>;

    open spec fn view(&self) -> Seq<FunctionInfoView> {
        self.functions.deep_view()
    }
}

impl FunctionAnalyzer {
    /// An analysis with no function yet.
    pub fn new() -> (analyzer: FunctionAnalyzer)
        ensures
            analyzer@ == Seq::<FunctionInfoView>::empty(),
    {
        let analyzer = FunctionAnalyzer { functions: Vec::new() };
        assert(analyzer@ =~= Seq::empty());
        analyzer
    }

    /// Keeps the signature of `func` where it is a function; a node of
    /// another kind is passed over.
    pub fn analyze_function(&mut self, func: &Node)
        ensures
            final(self)@ == if func@.kind == NodeKind::Function {
                old(self)@.push(function_info(func@))
            } else {
                old(self)@
            },
    {
        if func.kind == NodeKind::Function {
            proof {
                lemma_body_view(*func);
            }
            let info = FunctionInfo {
                name: func.name.clone(),
                args: typed_params_of(&func.params),
                return_type: clone_optional_text(&func.return_type),
                is_async: func.is_async,
                is_unsafe: func.is_unsafe,
                is_public: func.is_public,
                line_count: func.body.len(),
            };
            self.functions.push(info);
            assert(self@ =~= old(self)@.push(function_info(func@)));
        }
    }

    /// Keeps the signature of each top-level function of `tree`, in source
    /// order. Functions nested deeper are not looked at.
    pub fn analyze_tree(&mut self, tree: &Tree)
        ensures
            final(self)@ == old(self)@ + function_infos(tree@),
    {
        let mut i: usize = 0;
        assert(tree@.take(0) =~= Seq::empty());
        assert(self@ =~= old(self)@ + function_infos(tree@.take(0)));
        while i < tree.nodes.len()
            invariant
                i <= tree.nodes@.len(),
                self@ == old(self)@ + function_infos(tree@.take(i as int)),
            decreases tree.nodes@.len() - i,
        {
            proof {
                assert(tree@.take(i + 1).drop_last() =~= tree@.take(i as int));
                assert(tree@.take(i + 1).last() == tree.nodes@[i as int]@);
            }
            self.analyze_function(&tree.nodes[i]);
            proof {
                if tree.nodes@[i as int]@.kind == NodeKind::Function {
                    assert(self@ =~= old(self)@ + function_infos(tree@.take(i + 1)));
                }
            }
            i = i + 1;
        }
        assert(tree@.take(tree.nodes@.len() as int) =~= tree@);
    }

    /// Writes the lines that show the analysis.
    pub fn print_function_analysis(&self) -> (lines: Vec<String>)
        ensures
            lines.deep_view() == analysis_lines(self@),
    {
        let mut lines: Vec<String> = Vec::new();
        lines.push(String::from_str("=== Function Analysis ==="));
        let mut i: usize = 0;
        assert(self@.take(0) =~= Seq::empty());
        assert(lines.deep_view() =~= analysis_lines(self@.take(0)));
        while i < self.functions.len()
            invariant
                i <= self.functions@.len(),
                lines.deep_view() == analysis_lines(self@.take(i as int)),
            decreases self.functions@.len() - i,
        {
            let ghost before = lines.deep_view();
            let mut shown = function_report(&self.functions[i]);
            let ghost added = shown.deep_view();
            lines.append(&mut shown);
            proof {
                assert(lines.deep_view() =~= before + added);
                assert(self@.take(i + 1).drop_last() =~= self@.take(i as int));
                assert(self@.take(i + 1).last() == self.functions@[i as int]@);
                assert(lines.deep_view() =~= analysis_lines(self@.take(i + 1)));
            }
            i = i + 1;
        }
        assert(self@.take(self.functions@.len() as int) =~= self@);
        lines
    }
}

/// Writes the lines that show one function.
pub fn function_report(info: &FunctionInfo) -> (lines: Vec<String>)
    ensures
        lines.deep_view() == function_lines(info@),
{
    let mut lines: Vec<String> = Vec::new();
    let mut line = String::from_str("Function: ");
    line.append(info.name.as_str());
    lines.push(line);
    let mut line = String::from_str("  Public: ");
    line.append(truth_text(info.is_public));
    lines.push(line);
    let mut line = String::from_str("  Async: ");
    line.append(truth_text(info.is_async));
    lines.push(line);
    let mut line = String::from_str("  Unsafe: ");
    line.append(truth_text(info.is_unsafe));
    lines.push(line);
    lines.push(String::from_str("  Arguments:"));
    let ghost head = lines.deep_view();
    let ghost args = info.args.deep_view();
    assert(head =~= seq![
        "Function: "@ + info@.name,
        "  Public: "@ + truth(info@.is_public),
        "  Async: "@ + truth(info@.is_async),
        "  Unsafe: "@ + truth(info@.is_unsafe),
        "  Arguments:"@,
    ]);
    assert(head + argument_lines(args).take(0) =~= head);
    let mut i: usize = 0;
    while i < info.args.len()
        invariant
            i <= info.args@.len(),
            args == info.args.deep_view(),
            lines.deep_view() == head + argument_lines(args).take(i as int),
        decreases info.args@.len() - i,
    {
        let ghost before = lines.deep_view();
        let mut line = String::from_str("    ");
        line.append(info.args[i].name.as_str());
        line.append(": ");
        line.append(info.args[i].ty.as_str());
        lines.push(line);
        proof {
            assert(argument_lines(args).take(i + 1) =~= argument_lines(args).take(i as int).push(
                argument_lines(args)[i as int],
            ));
            assert(lines.deep_view() =~= before.push(argument_lines(args)[i as int]));
        }
        i = i + 1;
    }
    assert(argument_lines(args).take(info.args@.len() as int) =~= argument_lines(args));
    let ghost middle = lines.deep_view();
    let mut line = String::from_str("  Return type: ");
    match &info.return_type {
        Some(ty) => {
            line.append(ty.as_str());
        },
        None => {
            line.append("()");
        },
    }
    lines.push(line);
    let mut line = String::from_str("  Approximate size: ");
    line.append(decimal_string(info.line_count as u64).as_str());
    line.append(" statements");
    lines.push(line);
    let last = String::new();
    lines.push(last);
    proof {
        let tail = seq![
            "  Return type: "@ + match info@.return_type {
                Some(ty) => ty,
                None => "()"@,
            },
            "  Approximate size: "@ + decimal(info@.line_count) + " statements"@,
            Seq::<char>::empty(),
        ];
        assert(lines.deep_view() =~= middle + tail);
        assert(middle == head + argument_lines(args));
    }
    lines
}

/// The lines that show the tally of `nodes`, counted from zero.
pub open spec fn tally_lines(nodes: Seq<NodeView>) -> Seq<Seq<char>> {
    seq![
        "=== Rust Code Statistics ==="@,
        "Functions: "@ + decimal(count_kind(nodes, NodeKind::Function)),
        "Structs:   "@ + decimal(count_kind(nodes, NodeKind::Struct)),
        "Enums:     "@ + decimal(count_kind(nodes, NodeKind::Enum)),
        "Traits:    "@ + decimal(count_kind(nodes, NodeKind::Trait)),
        "Impls:     "@ + decimal(count_kind(nodes, NodeKind::Impl)),
        "Macros:    "@ + decimal(count_kind(nodes, NodeKind::Macro)),
        "==========================="@,
    ]
}

/// The lines that show both analyses of a tree: the tally of all its
/// nodes, then the signatures of its top-level functions.
pub open spec fn tree_report(tree: Seq<NodeView>) -> Seq<Seq<char>> {
    tally_lines(preorder_all(tree)) + analysis_lines(function_infos(tree))
}

/// Analyses what a parser handed back: its error as it came where it
/// failed, else the lines that show the tally of the tree and the
/// signatures of its top-level functions.
pub fn analyze_rust_file(parsed: Result<Tree, ParseError>) -> (outcome: Result<
    Vec<String>,
    ParseError,
>)
    ensures
        match parsed {
            Ok(tree) => outcome is Ok && outcome->Ok_0.deep_view() == tree_report(tree@),
            Err(error) => outcome == Err::<Vec<String>, ParseError>(error),
        },
{
    match parsed {
        Ok(tree) => {
            let visitor = RustCodeVisitor::survey(&tree);
            let mut lines = visitor.print_stats();
            let mut analyzer = FunctionAnalyzer::new();
            analyzer.analyze_tree(&tree);
            let mut shown = analyzer.print_function_analysis();
            let ghost first = lines.deep_view();
            let ghost second = shown.deep_view();
            lines.append(&mut shown);
            proof {
                assert(lines.deep_view() =~= first + second);
                assert(analyzer@ =~= function_infos(tree@));
                assert(first =~= tally_lines(preorder_all(tree@)));
            }
            Ok(lines)
        },
        Err(error) => Err(error),
    }
}

/// A method does not count as a function: a walk with one more method
/// holds as many functions as before.
pub proof fn lemma_method_is_not_counted(nodes: Seq<NodeView>, method: NodeView)
    requires
        method.kind == NodeKind::Method,
    ensures
        count_kind(nodes.push(method), NodeKind::Function) == count_kind(
            nodes,
            NodeKind::Function,
        ),
{
    assert(nodes.push(method).drop_last() =~= nodes);
}

} // verus!
