use ast_toolkit::transformer::RustTransformer;
use ast_toolkit::tree::{Node, NodeKind, Tree};

fn function_with(name: &str, statements: &[&str]) -> Node {
    let mut function = Node::new(NodeKind::Function, name);
    for text in statements {
        function.add_child(Node::statement(text));
    }
    function
}

#[test]
fn default_rules_only_add_logging() {
    let rules = RustTransformer::new();
    assert!(rules.add_logging);
    assert!(!rules.make_async);
    assert!(!rules.rename_functions);
}

#[test]
fn logging_statement_is_inserted_at_the_head() {
    let rules = RustTransformer::new();
    let mut function = function_with("greet", &["s1", "s2"]);
    rules.visit_item_fn_mut(&mut function);
    let expected = function_with(
        "greet",
        &["println!(\"Entering function: greet\")", "s1", "s2"],
    );
    assert_eq!(function, expected);
}

#[test]
fn whole_tree_is_rewritten() {
    let rules = RustTransformer { add_logging: true, make_async: true, rename_functions: true };
    let mut tree = Tree::new();
    tree.push(function_with("f", &["a"]));
    tree.push(Node::new(NodeKind::Struct, "S"));
    let rewritten = rules.transform(tree);
    assert_eq!(rewritten.nodes.len(), 2);
    assert_eq!(rewritten.nodes[0].name, "transformed_f");
    assert!(rewritten.nodes[0].is_async);
    assert_eq!(rewritten.nodes[0].body[0].name, "println!(\"Entering function: f\")");
    assert_eq!(rewritten.nodes[1], Node::new(NodeKind::Struct, "S"));
}

#[test]
fn log_statement_names_the_function() {
    let rules = RustTransformer::new();
    let statement = rules.create_log_statement("calculate_sum");
    assert_eq!(statement, Node::statement("println!(\"Entering function: calculate_sum\")"));
}

#[test]
fn nodes_of_other_kinds_pass_through() {
    let rules = RustTransformer { add_logging: true, make_async: true, rename_functions: true };
    let mut record = Node::new(NodeKind::Struct, "User");
    record.add_param("id", "u64");
    let before = record.clone();
    rules.visit_item_fn_mut(&mut record);
    assert_eq!(record, before);
    rules.apply_to(&mut record);
    assert_eq!(record, before);
}

#[test]
fn nested_functions_get_the_same_rules() {
    let rules = RustTransformer { add_logging: true, make_async: false, rename_functions: true };
    let mut inner = function_with("inner", &["x"]);
    inner.set_async();
    let mut block = Node::new(NodeKind::Module, "Thing");
    block.add_child(inner);
    let mut outer = function_with("outer", &["y"]);
    outer.add_child(block);
    rules.visit_item_fn_mut(&mut outer);
    assert_eq!(outer.name, "transformed_outer");
    let texts: Vec<&str> = outer.body.iter().map(|node| node.name.as_str()).collect();
    assert_eq!(texts, vec!["println!(\"Entering function: outer\")", "y", "Thing"]);
    let nested = &outer.body[2].body[0];
    assert_eq!(nested.name, "transformed_inner");
    assert!(nested.is_async);
    assert_eq!(nested.body[0].name, "println!(\"Entering function: inner\")");
    assert_eq!(nested.body[1].name, "x");
}

#[test]
fn rules_can_be_switched_on_one_by_one() {
    let only_async = RustTransformer { add_logging: false, make_async: true, rename_functions: false };
    let mut function = function_with("f", &["a"]);
    only_async.apply_to(&mut function);
    let mut expected = function_with("f", &["a"]);
    expected.set_async();
    assert_eq!(function, expected);
    let none = RustTransformer { add_logging: false, make_async: false, rename_functions: false };
    let mut function = function_with("f", &["a"]);
    none.visit_item_fn_mut(&mut function);
    assert_eq!(function, function_with("f", &["a"]));
}

#[test]
fn logging_twice_inserts_twice() {
    let rules = RustTransformer::new();
    let mut function = function_with("f", &[]);
    rules.visit_item_fn_mut(&mut function);
    rules.visit_item_fn_mut(&mut function);
    assert_eq!(function.body.len(), 2);
    assert_eq!(function.body[0], function.body[1]);
}

#[test]
fn methods_are_left_alone() {
    let rules = RustTransformer { add_logging: true, make_async: true, rename_functions: true };
    let mut method = function_with("method", &["a"]);
    method.kind = NodeKind::Method;
    method.add_child(function_with("nested", &["b"]));
    let mut block = Node::new(NodeKind::Impl, "Thing");
    block.add_child(method);
    rules.visit_item_fn_mut(&mut block);
    let method = &block.body[0];
    assert_eq!(method.name, "method");
    assert!(!method.is_async);
    assert_eq!(method.body.len(), 2);
    assert_eq!(method.body[0].name, "a");
    let nested = &method.body[1];
    assert_eq!(nested.name, "transformed_nested");
    assert!(nested.is_async);
    assert_eq!(nested.body[0].name, "println!(\"Entering function: nested\")");
    let mut alone = function_with("method", &["a"]);
    alone.kind = NodeKind::Method;
    let before = alone.clone();
    rules.apply_to(&mut alone);
    assert_eq!(alone, before);
}
