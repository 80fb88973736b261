use ast_toolkit::tree::{clone_nodes, Node, NodeKind, Param, Span, Tree};

fn names(nodes: &[&Node]) -> Vec<String> {
    nodes.iter().map(|node| node.name.clone()).collect()
}

#[test]
fn new_node_has_only_kind_and_name() {
    let node = Node::new(NodeKind::Function, "main");
    assert_eq!(node.kind, NodeKind::Function);
    assert_eq!(node.name, "main");
    assert!(!node.is_public);
    assert!(!node.is_async);
    assert!(!node.is_unsafe);
    assert!(node.attributes.is_empty());
    assert!(node.params.is_empty());
    assert_eq!(node.return_type, None);
    assert!(node.body.is_empty());
    assert_eq!(node.span, None);
    assert_eq!(node.generics, "");
    assert_eq!(node.type_arguments, "");
    assert_eq!(node.where_clause, "");
    assert!(!node.named_fields);
}

#[test]
fn add_child_appends_in_order() {
    let mut parent = Node::new(NodeKind::Impl, "Thing");
    parent.add_child(Node::new(NodeKind::Function, "first"));
    parent.add_child(Node::new(NodeKind::Function, "second"));
    assert_eq!(parent.body.len(), 2);
    assert_eq!(parent.body[0].name, "first");
    assert_eq!(parent.body[1].name, "second");
}

#[test]
fn builders_set_one_attribute_each() {
    let mut node = Node::new(NodeKind::Function, "f");
    node.set_public();
    node.set_async();
    node.set_unsafe();
    node.add_param("x", "u8");
    node.add_field("y", "u16");
    node.add_attribute("#[inline]");
    node.set_return_type("bool");
    node.set_span(3, 7);
    assert!(node.is_public && node.is_async && node.is_unsafe);
    assert_eq!(node.params, vec![Param::new("x", "u8"), Param::public("y", "u16")]);
    assert!(!node.params[0].is_public);
    assert!(node.params[1].is_public);
    assert_eq!(node.attributes, vec!["#[inline]".to_string()]);
    assert_eq!(node.return_type, Some("bool".to_string()));
    assert_eq!(node.span, Some(Span { line: 3, column: 7 }));
}

#[test]
fn statement_is_a_leaf_with_its_text() {
    let statement = Node::statement("let x = 1;");
    assert_eq!(statement.kind, NodeKind::Statement);
    assert_eq!(statement.name, "let x = 1;");
    assert!(statement.body.is_empty());
}

#[test]
fn walk_visits_parent_before_children_in_stored_order() {
    let mut inner = Node::new(NodeKind::Function, "b");
    inner.add_child(Node::statement("c"));
    inner.add_child(Node::statement("d"));
    let mut outer = Node::new(NodeKind::Module, "a");
    outer.add_child(inner);
    outer.add_child(Node::new(NodeKind::Struct, "e"));
    let mut tree = Tree::new();
    tree.push(outer);
    tree.push(Node::new(NodeKind::Enum, "f"));
    let walk = tree.preorder_nodes();
    assert_eq!(names(&walk), vec!["a", "b", "c", "d", "e", "f"]);
}

#[test]
fn walk_of_empty_tree_is_empty() {
    let tree = Tree::new();
    assert!(tree.preorder_nodes().is_empty());
}

#[test]
fn clone_copies_the_whole_subtree() {
    let mut node = Node::new(NodeKind::Function, "f");
    node.add_param("x", "u8");
    node.set_return_type("u8");
    node.add_attribute("#[test]");
    let mut child = Node::new(NodeKind::MatchExpression, "x");
    child.add_child(Node::new(NodeKind::MatchArm, "_"));
    node.add_child(child);
    let copy = node.clone();
    assert_eq!(copy, node);
    let copies = clone_nodes(&node.body);
    assert_eq!(copies, node.body);
}

#[test]
fn members_say_what_their_pattern_and_type_are() {
    let plain = Param::new("x", "u8");
    assert!(plain.is_name && plain.is_path && !plain.is_public);
    let field = Param::public("y", "u16");
    assert!(field.is_name && field.is_path && field.is_public);
    let receiver = Param::receiver("& mut Self");
    assert_eq!(receiver.name, "self");
    assert_eq!(receiver.ty, "& mut Self");
    assert!(receiver.is_name && !receiver.is_path);
    let written = Param::written("(a , b)", "(u8 , u8)", false, false);
    assert_eq!(written.name, "(a , b)");
    assert!(!written.is_name && !written.is_path && !written.is_public);
    let mut node = Node::new(NodeKind::Method, "m");
    node.add_receiver("& Self");
    node.add_member(written.clone());
    node.set_named_fields();
    node.set_generics("< T >", "< T >", "where T : Ord");
    assert_eq!(node.params, vec![Param::receiver("& Self"), written]);
    assert!(node.named_fields);
    assert_eq!(node.generics, "< T >");
    assert_eq!(node.where_clause, "where T : Ord");
}
