//! The tree model: nodes tagged by kind, their attributes, and the forest
//! that the other components read and rewrite.
//!
//! Every executable type has a mathematical view. Contracts throughout the
//! crate are stated over those views: a [`Node`] is seen as a [`NodeView`],
//! a [`Tree`] as the sequence of the views of its top-level nodes.
use vstd::prelude::*;
use vstd::string::*;

verus! {

/// What a node stands for. Besides the items, traits and expressions that
/// the components look for there are modules, the arms of a match and
/// macro calls, so that a tree can say where an item is nested, which
/// patterns a match covers, and how many macros a source uses.
///
/// A function that stands by itself, at the top level, in a module or in
/// the body of another function, is a `Function`. A function that belongs
/// to an implementation block or to a trait is a `Method`: the tally, the
/// size rule and the transformer look at functions and pass methods over.
#[derive(Clone, Copy, Debug, PartialEq, Eq, Structural)]
pub enum NodeKind {
    Function,
    Method,
    Struct,
    Enum,
    Trait,
    Impl,
    Module,
    MatchExpression,
    MatchArm,
    MethodCall,
    Macro,
    Statement,
    Other,
}

/// A position in the source text.
#[derive(Clone, Copy, Debug, PartialEq, Eq, Structural)]
pub struct Span {
    pub line: usize,
    pub column: usize,
}

/// A typed member: a parameter of a function or a field of a record, with
/// its pattern and its type as they are written. A receiver is the
/// parameter called `self`; a field of a tuple record has an empty name.
/// Only a field can be public.
#[derive(Debug, PartialEq, Eq)]
pub struct Param {
    /// The pattern as written: most often a name.
    pub name: String,
    /// The type as written.
    pub ty: String,
    pub is_public: bool,
    /// Whether the pattern is a plain name, and not, say, a tuple of names.
    pub is_name: bool,
    /// Whether the type is a path, such as `u8` or `Vec<String>`, and not,
    /// say, a reference or a tuple.
    pub is_path: bool,
}

/// The view of a [`Param`].
pub struct ParamView {
    pub name: Seq<char>,
    pub ty: Seq<char>,
    pub is_public: bool,
    pub is_name: bool,
    pub is_path: bool,
}

impl ParamView {
    /// A parameter, or a private field, with a plain name and a path type.
    pub open spec fn private(name: Seq<char>, ty: Seq<char>) -> ParamView {
        ParamView { name, ty, is_public: false, is_name: true, is_path: true }
    }

    /// A public field with a path type.
    pub open spec fn public(name: Seq<char>, ty: Seq<char>) -> ParamView {
        ParamView { name, ty, is_public: true, is_name: true, is_path: true }
    }

    /// The receiver of a method, of the type given, which is no path.
    pub open spec fn receiver(ty: Seq<char>) -> ParamView {
        ParamView { name: "self"@, ty, is_public: false, is_name: true, is_path: false }
    }

    /// A parameter as written, with what is known of its pattern and type.
    pub open spec fn written(
        pattern: Seq<char>,
        ty: Seq<char>,
        is_name: bool,
        is_path: bool,
    ) -> ParamView {
        ParamView { name: pattern, ty, is_public: false, is_name, is_path }
    }
}

impl View for Param {
    type V = ParamView;

    open spec fn view(&self) -> ParamView {
        ParamView {
            name: self.name@,
            ty: self.ty@,
            is_public: self.is_public,
            is_name: self.is_name,
            is_path: self.is_path,
        }
    }
}

/// One entry of the syntax tree. It owns its attributes and its children.
#[derive(Debug, PartialEq, Eq)]
pub struct Node {
    pub kind: NodeKind,
    /// The identifier of an item, the callee of a call, the pattern of a
    /// match arm, or the text of a statement.
    pub name: String,
    pub is_public: bool,
    pub is_async: bool,
    pub is_unsafe: bool,
    /// The generic parameters as they are declared, with their bounds and
    /// the angle brackets; empty where there are none.
    pub generics: String,
    /// The generic parameters as they are handed on where the item is
    /// named, without bounds; empty where there are none.
    pub type_arguments: String,
    /// The `where` clause as written; empty where there is none.
    pub where_clause: String,
    /// Annotations written above the item, in order.
    pub attributes: Vec<String>,
    /// Whether a record writes its fields with names, in braces. A unit
    /// record and a tuple record do not.
    pub named_fields: bool,
    /// Parameters of a function, fields of a record.
    pub params: Vec<Param>,
    pub return_type: Option<String>,
    /// The children, in source order.
    pub body: Vec<Node>,
    pub span: Option<Span>,
}

/// The view of a [`Node`]: the same attributes over sequences.
pub struct NodeView {
    pub kind: NodeKind,
    pub name: Seq<char>,
    pub is_public: bool,
    pub is_async: bool,
    pub is_unsafe: bool,
    pub generics: Seq<char>,
    pub type_arguments: Seq<char>,
    pub where_clause: Seq<char>,
    pub attributes: Seq<Seq<char>>,
    pub named_fields: bool,
    pub params: Seq<ParamView>,
    pub return_type: Option<Seq<char>>,
    pub body: Seq<NodeView>,
    pub span: Option<Span>,
}

/// The views of a sequence of strings.
pub open spec fn texts_view(texts: Seq<String>) -> Seq<Seq<char>> {
    Seq::new(texts.len(), |i: int| texts[i]@)
}

/// The views of a sequence of parameters.
pub open spec fn params_view(params: Seq<Param>) -> Seq<ParamView> {
    Seq::new(params.len(), |i: int| params[i]@)
}

/// The view of an optional string.
pub open spec fn optional_text_view(text: Option<String>) -> Option<Seq<char>> {
    match text {
        Some(t) => Some(t@),
        None => None,
    }
}

/// The view of a node, children included.
pub open spec fn node_view(node: Node) -> NodeView
    decreases node,
{
    NodeView {
        kind: node.kind,
        name: node.name@,
        is_public: node.is_public,
        is_async: node.is_async,
        is_unsafe: node.is_unsafe,
        generics: node.generics@,
        type_arguments: node.type_arguments@,
        where_clause: node.where_clause@,
        attributes: texts_view(node.attributes@),
        named_fields: node.named_fields,
        params: params_view(node.params@),
        return_type: optional_text_view(node.return_type),
        body: Seq::new(
            node.body@.len(),
            |i: int|
                if 0 <= i < node.body@.len() {
                    node_view(node.body@[i])
                } else {
                    arbitrary()
                },
        ),
        span: node.span,
    }
}

impl View for Node {
    type V = NodeView;

    open spec fn view(&self) -> NodeView {
        node_view(*self)
    }
}

/// The views of a sequence of nodes.
pub open spec fn nodes_view(nodes: Seq<Node>) -> Seq<NodeView> {
    Seq::new(nodes.len(), |i: int| nodes[i]@)
}

/// The children of a node's view are the views of its children.
pub proof fn lemma_body_view(node: Node)
    ensures
        node@.body == nodes_view(node.body@),
{
    assert(node@.body =~= nodes_view(node.body@));
}

impl NodeView {
    /// A node of the given kind and name with every other attribute empty.
    pub open spec fn leaf(kind: NodeKind, name: Seq<char>) -> NodeView {
        NodeView {
            kind,
            name,
            is_public: false,
            is_async: false,
            is_unsafe: false,
            generics: Seq::empty(),
            type_arguments: Seq::empty(),
            where_clause: Seq::empty(),
            attributes: Seq::empty(),
            named_fields: false,
            params: Seq::empty(),
            return_type: None,
            body: Seq::empty(),
            span: None,
        }
    }

    /// A statement that holds `text`.
    pub open spec fn statement(text: Seq<char>) -> NodeView {
        NodeView::leaf(NodeKind::Statement, text)
    }

    pub open spec fn with_child(self, child: NodeView) -> NodeView {
        NodeView { body: self.body.push(child), ..self }
    }

    pub open spec fn with_body(self, body: Seq<NodeView>) -> NodeView {
        NodeView { body, ..self }
    }

    /// With one more parameter, or private field.
    pub open spec fn with_param(self, name: Seq<char>, ty: Seq<char>) -> NodeView {
        NodeView { params: self.params.push(ParamView::private(name, ty)), ..self }
    }

    /// With one more public field.
    pub open spec fn with_field(self, name: Seq<char>, ty: Seq<char>) -> NodeView {
        NodeView { params: self.params.push(ParamView::public(name, ty)), ..self }
    }

    /// With a receiver of the type given.
    pub open spec fn with_receiver(self, ty: Seq<char>) -> NodeView {
        NodeView { params: self.params.push(ParamView::receiver(ty)), ..self }
    }

    /// With one more member, whatever it is.
    pub open spec fn with_member(self, member: ParamView) -> NodeView {
        NodeView { params: self.params.push(member), ..self }
    }

    /// With fields written with names, in braces.
    pub open spec fn with_named_fields(self) -> NodeView {
        NodeView { named_fields: true, ..self }
    }

    /// With the generic parameters and the `where` clause given.
    pub open spec fn with_generics(
        self,
        generics: Seq<char>,
        type_arguments: Seq<char>,
        where_clause: Seq<char>,
    ) -> NodeView {
        NodeView { generics, type_arguments, where_clause, ..self }
    }

    pub open spec fn with_params(self, params: Seq<ParamView>) -> NodeView {
        NodeView { params, ..self }
    }

    pub open spec fn with_attribute(self, attribute: Seq<char>) -> NodeView {
        NodeView { attributes: self.attributes.push(attribute), ..self }
    }

    pub open spec fn with_return_type(self, ty: Seq<char>) -> NodeView {
        NodeView { return_type: Some(ty), ..self }
    }

    pub open spec fn with_name(self, name: Seq<char>) -> NodeView {
        NodeView { name, ..self }
    }

    pub open spec fn with_span(self, span: Span) -> NodeView {
        NodeView { span: Some(span), ..self }
    }

    pub open spec fn public(self) -> NodeView {
        NodeView { is_public: true, ..self }
    }

    pub open spec fn asynchronous(self) -> NodeView {
        NodeView { is_async: true, ..self }
    }

    pub open spec fn unsafe_marked(self) -> NodeView {
        NodeView { is_unsafe: true, ..self }
    }
}

/// A node followed by its descendants, parent before children, children in
/// their stored order.
pub open spec fn preorder(node: NodeView) -> Seq<NodeView>
    decreases node,
{
    seq![node] + preorder_all(node.body)
}

/// The pre-order walk of a forest: the walks of its nodes, one after another.
pub open spec fn preorder_all(nodes: Seq<NodeView>) -> Seq<NodeView>
    decreases nodes,
{
    if nodes.len() == 0 {
        Seq::empty()
    } else {
        preorder_all(nodes.drop_last()) + preorder(nodes.last())
    }
}

impl Clone for Param {
    fn clone(&self) -> (copy: Param)
        ensures
            copy@ == self@,
    {
        Param {
            name: self.name.clone(),
            ty: self.ty.clone(),
            is_public: self.is_public,
            is_name: self.is_name,
            is_path: self.is_path,
        }
    }
}

impl Param {
    /// A parameter, or a private field, with a plain name and a path type.
    pub fn new(name: &str, ty: &str) -> (param: Param)
        ensures
            param@ == ParamView::private(name@, ty@),
    {
        Param {
            name: String::from_str(name),
            ty: String::from_str(ty),
            is_public: false,
            is_name: true,
            is_path: true,
        }
    }

    /// A public field with a path type.
    pub fn public(name: &str, ty: &str) -> (param: Param)
        ensures
            param@ == ParamView::public(name@, ty@),
    {
        Param {
            name: String::from_str(name),
            ty: String::from_str(ty),
            is_public: true,
            is_name: true,
            is_path: true,
        }
    }

    /// The receiver of a method, of the type given.
    pub fn receiver(ty: &str) -> (param: Param)
        ensures
            param@ == ParamView::receiver(ty@),
    {
        Param {
            name: String::from_str("self"),
            ty: String::from_str(ty),
            is_public: false,
            is_name: true,
            is_path: false,
        }
    }

    /// A parameter as written: its pattern, its type, whether the pattern
    /// is a plain name and whether the type is a path.
    pub fn written(pattern: &str, ty: &str, is_name: bool, is_path: bool) -> (param: Param)
        ensures
            param@ == ParamView::written(pattern@, ty@, is_name, is_path),
    {
        Param {
            name: String::from_str(pattern),
            ty: String::from_str(ty),
            is_public: false,
            is_name,
            is_path,
        }
    }
}

/// A copy of a list of strings.
pub fn clone_texts(texts: &Vec<String>) -> (copy: Vec<String>)
    ensures
        texts_view(copy@) == texts_view(texts@),
        copy.deep_view() == texts.deep_view(),
{
    let mut copy: Vec<String> = Vec::new();
    let mut i: usize = 0;
    while i < texts.len()
        invariant
            i <= texts@.len(),
            copy@.len() == i,
            forall|k: int| 0 <= k < i ==> (#[trigger] copy@[k])@ == texts@[k]@,
        decreases texts@.len() - i,
    {
        copy.push(texts[i].clone());
        i = i + 1;
    }
    assert(texts_view(copy@) =~= texts_view(texts@));
    assert(copy.deep_view() =~= texts.deep_view());
    copy
}

/// A copy of a list of parameters.
pub fn clone_params(params: &Vec<Param>) -> (copy: Vec<Param>)
    ensures
        params_view(copy@) == params_view(params@),
{
    let mut copy: Vec<Param> = Vec::new();
    let mut i: usize = 0;
    while i < params.len()
        invariant
            i <= params@.len(),
            copy@.len() == i,
            forall|k: int| 0 <= k < i ==> (#[trigger] copy@[k])@ == params@[k]@,
        decreases params@.len() - i,
    {
        copy.push(params[i].clone());
        i = i + 1;
    }
    assert(params_view(copy@) =~= params_view(params@));
    copy
}

/// A copy of an optional string.
pub fn clone_optional_text(text: &Option<String>) -> (copy: Option<String>)
    ensures
        optional_text_view(copy) == optional_text_view(*text),
{
    match text {
        Some(t) => Some(t.clone()),
        None => None,
    }
}

/// A copy of a list of nodes.
pub fn clone_nodes(nodes: &Vec<Node>) -> (copy: Vec<Node>)
    ensures
        nodes_view(copy@) == nodes_view(nodes@),
{
    let mut copy: Vec<Node> = Vec::new();
    let mut i: usize = 0;
    while i < nodes.len()
        invariant
            i <= nodes@.len(),
            copy@.len() == i,
            forall|k: int| 0 <= k < i ==> (#[trigger] copy@[k])@ == nodes@[k]@,
        decreases nodes@.len() - i,
    {
        copy.push(nodes[i].clone());
        i = i + 1;
    }
    assert(nodes_view(copy@) =~= nodes_view(nodes@));
    copy
}

impl Clone for Node {
    fn clone(&self) -> (copy: Node)
        ensures
            copy@ == self@,
        decreases self,
    {
        let mut body: Vec<Node> = Vec::new();
        let mut i: usize = 0;
        while i < self.body.len()
            invariant
                i <= self.body@.len(),
                body@.len() == i,
                forall|k: int| 0 <= k < i ==> (#[trigger] body@[k])@ == self.body@[k]@,
            decreases self.body@.len() - i,
        {
            body.push(self.body[i].clone());
            i = i + 1;
        }
        let copy = Node {
            kind: self.kind,
            name: self.name.clone(),
            is_public: self.is_public,
            is_async: self.is_async,
            is_unsafe: self.is_unsafe,
            generics: self.generics.clone(),
            type_arguments: self.type_arguments.clone(),
            where_clause: self.where_clause.clone(),
            attributes: clone_texts(&self.attributes),
            named_fields: self.named_fields,
            params: clone_params(&self.params),
            return_type: clone_optional_text(&self.return_type),
            body,
            span: self.span,
        };
        proof {
            lemma_body_view(copy);
            lemma_body_view(*self);
            assert(nodes_view(copy.body@) =~= nodes_view(self.body@));
        }
        copy
    }
}

impl Node {
    /// A node of the given kind and name, with no modifier, member, child or
    /// position.
    pub fn new(kind: NodeKind, name: &str) -> (node: Node)
        ensures
            node@ == NodeView::leaf(kind, name@),
    {
        let node = Node {
            kind,
            name: String::from_str(name),
            is_public: false,
            is_async: false,
            is_unsafe: false,
            generics: String::new(),
            type_arguments: String::new(),
            where_clause: String::new(),
            attributes: Vec::new(),
            named_fields: false,
            params: Vec::new(),
            return_type: None,
            body: Vec::new(),
            span: None,
        };
        proof {
            lemma_body_view(node);
            assert(node@.body =~= Seq::empty());
            assert(node@.attributes =~= Seq::empty());
            assert(node@.params =~= Seq::empty());
        }
        node
    }

    /// A statement that holds `text`.
    pub fn statement(text: &str) -> (node: Node)
        ensures
            node@ == NodeView::statement(text@),
    {
        Node::new(NodeKind::Statement, text)
    }

    /// Appends `child` as the last child.
    pub fn add_child(&mut self, child: Node)
        ensures
            final(self)@ == old(self)@.with_child(child@),
    {
        proof {
            lemma_body_view(*self);
        }
        self.body.push(child);
        proof {
            lemma_body_view(*self);
            assert(nodes_view(self.body@) =~= nodes_view(old(self).body@).push(child@));
        }
    }

    /// Appends a parameter, or a private field, called `name` of type `ty`.
    pub fn add_param(&mut self, name: &str, ty: &str)
        ensures
            final(self)@ == old(self)@.with_param(name@, ty@),
    {
        proof {
            lemma_body_view(*self);
        }
        self.params.push(Param::new(name, ty));
        proof {
            lemma_body_view(*self);
            assert(params_view(self.params@) =~= params_view(old(self).params@).push(
                ParamView::private(name@, ty@),
            ));
        }
    }

    /// Appends a public field called `name` of type `ty`.
    pub fn add_field(&mut self, name: &str, ty: &str)
        ensures
            final(self)@ == old(self)@.with_field(name@, ty@),
    {
        proof {
            lemma_body_view(*self);
        }
        self.params.push(Param::public(name, ty));
        proof {
            lemma_body_view(*self);
            assert(params_view(self.params@) =~= params_view(old(self).params@).push(
                ParamView::public(name@, ty@),
            ));
        }
    }

    /// Appends a receiver of the type given.
    pub fn add_receiver(&mut self, ty: &str)
        ensures
            final(self)@ == old(self)@.with_receiver(ty@),
    {
        self.add_member(Param::receiver(ty));
    }

    /// Appends `member` as the last parameter or field.
    pub fn add_member(&mut self, member: Param)
        ensures
            final(self)@ == old(self)@.with_member(member@),
    {
        proof {
            lemma_body_view(*self);
        }
        self.params.push(member);
        proof {
            lemma_body_view(*self);
            assert(params_view(self.params@) =~= params_view(old(self).params@).push(member@));
        }
    }

    /// Says that the fields are written with names, in braces.
    pub fn set_named_fields(&mut self)
        ensures
            final(self)@ == old(self)@.with_named_fields(),
    {
        proof {
            lemma_body_view(*self);
        }
        self.named_fields = true;
        proof {
            lemma_body_view(*self);
        }
    }

    /// Sets the generic parameters as declared, as handed on, and the
    /// `where` clause.
    pub fn set_generics(&mut self, generics: &str, type_arguments: &str, where_clause: &str)
        ensures
            final(self)@ == old(self)@.with_generics(generics@, type_arguments@, where_clause@),
    {
        proof {
            lemma_body_view(*self);
        }
        self.generics = String::from_str(generics);
        self.type_arguments = String::from_str(type_arguments);
        self.where_clause = String::from_str(where_clause);
        proof {
            lemma_body_view(*self);
        }
    }

    /// Appends an annotation.
    pub fn add_attribute(&mut self, attribute: &str)
        ensures
            final(self)@ == old(self)@.with_attribute(attribute@),
    {
        proof {
            lemma_body_view(*self);
        }
        self.attributes.push(String::from_str(attribute));
        proof {
            lemma_body_view(*self);
            assert(texts_view(self.attributes@) =~= texts_view(old(self).attributes@).push(
                attribute@,
            ));
        }
    }

    /// Sets the return type.
    pub fn set_return_type(&mut self, ty: &str)
        ensures
            final(self)@ == old(self)@.with_return_type(ty@),
    {
        proof {
            lemma_body_view(*self);
        }
        self.return_type = Some(String::from_str(ty));
        proof {
            lemma_body_view(*self);
        }
    }

    /// Sets the position in the source text.
    pub fn set_span(&mut self, line: usize, column: usize)
        ensures
            final(self)@ == old(self)@.with_span(Span { line, column }),
    {
        proof {
            lemma_body_view(*self);
        }
        self.span = Some(Span { line, column });
        proof {
            lemma_body_view(*self);
        }
    }

    /// Marks the node public.
    pub fn set_public(&mut self)
        ensures
            final(self)@ == old(self)@.public(),
    {
        proof {
            lemma_body_view(*self);
        }
        self.is_public = true;
        proof {
            lemma_body_view(*self);
        }
    }

    /// Marks the node asynchronous.
    pub fn set_async(&mut self)
        ensures
            final(self)@ == old(self)@.asynchronous(),
    {
        proof {
            lemma_body_view(*self);
        }
        self.is_async = true;
        proof {
            lemma_body_view(*self);
        }
    }

    /// Marks the node unsafe.
    pub fn set_unsafe(&mut self)
        ensures
            final(self)@ == old(self)@.unsafe_marked(),
    {
        proof {
            lemma_body_view(*self);
        }
        self.is_unsafe = true;
        proof {
            lemma_body_view(*self);
        }
    }
}

/// The whole parsed unit: its top-level nodes, in source order. The tree
/// owns every node, so no node has two parents.
#[derive(Debug, PartialEq, Eq)]
pub struct Tree {
    pub nodes: Vec<Node>,
}

impl View for Tree {
    type V = Seq<NodeView>;

    open spec fn view(&self) -> Seq<NodeView> {
        nodes_view(self.nodes@)
    }
}

/// The views of a sequence of borrowed nodes.
pub open spec fn borrowed_view(nodes: Seq<&Node>) -> Seq<NodeView> {
    Seq::new(nodes.len(), |i: int| nodes[i]@)
}

/// Walking one more node of a forest appends that node's walk.
pub proof fn lemma_preorder_all_step(nodes: Seq<NodeView>, i: int)
    requires
        0 <= i < nodes.len(),
    ensures
        preorder_all(nodes.take(i + 1)) == preorder_all(nodes.take(i)) + preorder(nodes[i]),
{
    assert(nodes.take(i + 1).drop_last() =~= nodes.take(i));
}

/// Appends to `out` the walk of `node`.
fn collect_preorder<'a>(node: &'a Node, out: &mut Vec<&'a Node>)
    ensures
        borrowed_view(final(out)@) == borrowed_view(old(out)@) + preorder(node@),
    decreases node,
{
    out.push(node);
    proof {
        lemma_body_view(*node);
        assert(node@.body.take(0) =~= Seq::empty());
        assert(borrowed_view(out@) =~= borrowed_view(old(out)@) + seq![node@] + preorder_all(
            node@.body.take(0),
        ));
    }
    let mut i: usize = 0;
    while i < node.body.len()
        invariant
            i <= node.body@.len(),
            node@.body == nodes_view(node.body@),
            borrowed_view(out@) == borrowed_view(old(out)@) + seq![node@] + preorder_all(
                node@.body.take(i as int),
            ),
        decreases node.body@.len() - i,
    {
        collect_preorder(&node.body[i], out);
        proof {
            lemma_preorder_all_step(node@.body, i as int);
            assert(borrowed_view(out@) =~= borrowed_view(old(out)@) + seq![node@] + preorder_all(
                node@.body.take(i + 1),
            ));
        }
        i = i + 1;
    }
    proof {
        assert(node@.body.take(node.body@.len() as int) =~= node@.body);
        assert(borrowed_view(out@) =~= borrowed_view(old(out)@) + preorder(node@));
    }
}

impl Tree {
    /// A tree with no node.
    pub fn new() -> (tree: Tree)
        ensures
            tree@ == Seq::<NodeView>::empty(),
    {
        let tree = Tree { nodes: Vec::new() };
        assert(tree@ =~= Seq::empty());
        tree
    }

    /// Appends `node` as the last top-level node.
    pub fn push(&mut self, node: Node)
        ensures
            final(self)@ == old(self)@.push(node@),
    {
        self.nodes.push(node);
        assert(self@ =~= old(self)@.push(node@));
    }

    /// Every node of the tree in pre-order: a parent before its children,
    /// children in their stored order.
    pub fn preorder_nodes(&self) -> (walk: Vec<&Node>)
        ensures
            borrowed_view(walk@) == preorder_all(self@),
    {
        let mut walk: Vec<&Node> = Vec::new();
        let mut i: usize = 0;
        assert(self@.take(0) =~= Seq::empty());
        assert(borrowed_view(walk@) =~= preorder_all(self@.take(0)));
        while i < self.nodes.len()
            invariant
                i <= self.nodes@.len(),
                borrowed_view(walk@) == preorder_all(self@.take(i as int)),
            decreases self.nodes@.len() - i,
        {
            collect_preorder(&self.nodes[i], &mut walk);
            proof {
                lemma_preorder_all_step(self@, i as int);
            }
            i = i + 1;
        }
        assert(self@.take(self.nodes@.len() as int) =~= self@);
        walk
    }
}

} // verus!
