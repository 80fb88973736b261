use ast_toolkit::analysis::{
    analyze_rust_file, function_report, Argument, FunctionAnalyzer, FunctionInfo, RustCodeVisitor,
};
use ast_toolkit::linter::ParseError;
use ast_toolkit::tree::{Node, NodeKind, Param, Tree};
use ast_toolkit::visitor::{traverse, Names, OnKind};

fn sample_tree() -> Tree {
    let mut greet = Node::new(NodeKind::Function, "greet");
    greet.set_public();
    greet.add_member(Param::written("name", "&str", true, false));
    greet.set_return_type("String");
    greet.add_child(Node::new(NodeKind::Macro, "format"));
    let mut nested = Node::new(NodeKind::Function, "helper");
    nested.add_child(Node::new(NodeKind::Macro, "println"));
    greet.add_child(nested);
    let mut block = Node::new(NodeKind::Impl, "User");
    let mut method = Node::new(NodeKind::Method, "touch");
    method.set_async();
    method.set_unsafe();
    method.add_receiver("&mut Self");
    method.add_param("by", "u8");
    block.add_child(method);
    let mut tree = Tree::new();
    tree.push(Node::new(NodeKind::Struct, "User"));
    tree.push(greet);
    tree.push(Node::new(NodeKind::Enum, "Role"));
    tree.push(Node::new(NodeKind::Trait, "Named"));
    tree.push(block);
    tree
}

#[test]
fn traverse_gathers_in_walk_order() {
    let tree = sample_tree();
    let found = traverse(&tree, &Names);
    assert_eq!(
        found,
        vec!["User", "greet", "format", "helper", "println", "Role", "Named", "User", "touch"]
    );
}

#[test]
fn callback_for_one_kind_passes_over_the_others() {
    let tree = sample_tree();
    let functions = traverse(&tree, &OnKind { kind: NodeKind::Function, callback: Names });
    assert_eq!(functions, vec!["greet", "helper"]);
    let methods = traverse(&tree, &OnKind { kind: NodeKind::Method, callback: Names });
    assert_eq!(methods, vec!["touch"]);
    let matches = traverse(&tree, &OnKind { kind: NodeKind::MatchExpression, callback: Names });
    assert!(matches.is_empty());
}

#[test]
fn two_traversals_of_one_tree_agree() {
    let tree = sample_tree();
    let before = sample_tree();
    let first = traverse(&tree, &Names);
    let second = traverse(&tree, &Names);
    assert_eq!(first, second);
    assert_eq!(tree, before);
}

#[test]
fn new_tally_starts_at_zero() {
    let visitor = RustCodeVisitor::new();
    assert_eq!(visitor.fn_count, 0);
    assert_eq!(visitor.struct_count, 0);
    assert_eq!(visitor.enum_count, 0);
    assert_eq!(visitor.trait_count, 0);
    assert_eq!(visitor.impl_count, 0);
    assert_eq!(visitor.macro_count, 0);
}

#[test]
fn tally_counts_every_node_by_kind() {
    let tree = sample_tree();
    let visitor = RustCodeVisitor::survey(&tree);
    assert_eq!(visitor.fn_count, 2);
    assert_eq!(visitor.struct_count, 1);
    assert_eq!(visitor.enum_count, 1);
    assert_eq!(visitor.trait_count, 1);
    assert_eq!(visitor.impl_count, 1);
    assert_eq!(visitor.macro_count, 2);
}

#[test]
fn tally_goes_on_from_where_it_stood() {
    let tree = sample_tree();
    let mut visitor = RustCodeVisitor::survey(&tree);
    visitor.visit_file(&tree);
    assert_eq!(visitor.fn_count, 4);
    assert_eq!(visitor.macro_count, 4);
    visitor.visit_node(&Node::new(NodeKind::Macro, "vec"));
    visitor.visit_node(&Node::statement("x"));
    visitor.visit_node(&Node::new(NodeKind::Method, "m"));
    assert_eq!(visitor.macro_count, 5);
    assert_eq!(visitor.fn_count, 4);
}

#[test]
fn tally_is_shown_line_by_line() {
    let visitor = RustCodeVisitor::survey(&sample_tree());
    assert_eq!(
        visitor.print_stats(),
        vec![
            "=== Rust Code Statistics ===",
            "Functions: 2",
            "Structs:   1",
            "Enums:     1",
            "Traits:    1",
            "Impls:     1",
            "Macros:    2",
            "===========================",
        ]
    );
}

#[test]
fn analyzer_keeps_the_signature_without_the_receiver() {
    let mut analyzer = FunctionAnalyzer::new();
    assert!(analyzer.functions.is_empty());
    let mut method = Node::new(NodeKind::Function, "touch");
    method.set_async();
    method.set_unsafe();
    method.add_receiver("&mut Self");
    method.add_param("by", "u8");
    method.add_child(Node::statement("a"));
    method.add_child(Node::statement("b"));
    analyzer.analyze_function(&method);
    analyzer.analyze_function(&Node::new(NodeKind::Struct, "Skipped"));
    assert_eq!(
        analyzer.functions,
        vec![FunctionInfo {
            name: "touch".to_string(),
            args: vec![Argument { name: "by".to_string(), ty: "u8".to_string() }],
            return_type: None,
            is_async: true,
            is_unsafe: true,
            is_public: false,
            line_count: 2,
        }]
    );
}

#[test]
fn analyzer_looks_at_top_level_functions_only() {
    let mut analyzer = FunctionAnalyzer::new();
    analyzer.analyze_tree(&sample_tree());
    let names: Vec<&str> = analyzer.functions.iter().map(|info| info.name.as_str()).collect();
    assert_eq!(names, vec!["greet"]);
    assert_eq!(analyzer.functions[0].line_count, 2);
    assert!(analyzer.functions[0].is_public);
    assert_eq!(analyzer.functions[0].return_type, Some("String".to_string()));
}

#[test]
fn function_is_shown_line_by_line() {
    let info = FunctionInfo {
        name: "greet".to_string(),
        args: vec![
            Argument { name: "name".to_string(), ty: "&str".to_string() },
            Argument { name: "times".to_string(), ty: "u8".to_string() },
        ],
        return_type: Some("String".to_string()),
        is_async: false,
        is_unsafe: false,
        is_public: true,
        line_count: 2,
    };
    assert_eq!(
        function_report(&info),
        vec![
            "Function: greet",
            "  Public: true",
            "  Async: false",
            "  Unsafe: false",
            "  Arguments:",
            "    name: &str",
            "    times: u8",
            "  Return type: String",
            "  Approximate size: 2 statements",
            "",
        ]
    );
}

#[test]
fn function_without_return_type_returns_unit() {
    let mut analyzer = FunctionAnalyzer::new();
    analyzer.analyze_function(&Node::new(NodeKind::Function, "main"));
    assert_eq!(
        analyzer.print_function_analysis(),
        vec![
            "=== Function Analysis ===",
            "Function: main",
            "  Public: false",
            "  Async: false",
            "  Unsafe: false",
            "  Arguments:",
            "  Return type: ()",
            "  Approximate size: 0 statements",
            "",
        ]
    );
}

#[test]
fn file_analysis_shows_tally_then_functions() {
    let lines = analyze_rust_file(Ok(sample_tree())).unwrap();
    assert_eq!(lines.len(), 8 + 1 + 9);
    assert_eq!(lines[1], "Functions: 2");
    assert_eq!(lines[8], "=== Function Analysis ===");
    assert_eq!(lines[9], "Function: greet");
    assert_eq!(lines[14], "    name: unknown");
    let failed = analyze_rust_file(Err(ParseError { message: "bad".to_string() }));
    assert_eq!(failed, Err(ParseError { message: "bad".to_string() }));
}

#[test]
fn methods_are_no_function_items() {
    let mut b = Node::new(NodeKind::Function, "b");
    b.set_span(1, 10);
    let mut a = Node::new(NodeKind::Function, "a");
    a.add_child(b);
    let mut m = Node::new(NodeKind::Method, "m");
    m.add_receiver("& Self");
    let mut block = Node::new(NodeKind::Impl, "S");
    block.add_child(m);
    let mut tree = Tree::new();
    tree.push(a);
    tree.push(Node::new(NodeKind::Struct, "S"));
    tree.push(block);
    let lines = analyze_rust_file(Ok(tree)).unwrap();
    assert_eq!(
        lines,
        vec![
            "=== Rust Code Statistics ===",
            "Functions: 2",
            "Structs:   1",
            "Enums:     0",
            "Traits:    0",
            "Impls:     1",
            "Macros:    0",
            "===========================",
            "=== Function Analysis ===",
            "Function: a",
            "  Public: false",
            "  Async: false",
            "  Unsafe: false",
            "  Arguments:",
            "  Return type: ()",
            "  Approximate size: 1 statements",
            "",
        ]
    );
}

#[test]
fn method_nested_in_a_function_is_not_counted() {
    let mut block = Node::new(NodeKind::Impl, "S");
    block.add_child(Node::new(NodeKind::Method, "m"));
    let mut outer = Node::new(NodeKind::Function, "outer");
    outer.add_child(block);
    let mut tree = Tree::new();
    tree.push(outer);
    let visitor = RustCodeVisitor::survey(&tree);
    assert_eq!(visitor.fn_count, 1);
    assert_eq!(visitor.impl_count, 1);
    assert_eq!(RustCodeVisitor::survey(&tree), visitor);
}

#[test]
fn analyzer_decides_unnamed_patterns_and_unknown_types() {
    let mut f = Node::new(NodeKind::Function, "f");
    f.set_public();
    f.set_async();
    f.add_member(Param::written("a", "u8", true, true));
    f.add_member(Param::written("s", "& str", true, false));
    f.add_member(Param::written("(x , y)", "(u8 , u8)", false, false));
    f.add_member(Param::written("Point { x , y }", "Point", false, true));
    f.set_return_type("u8");
    f.add_child(Node::statement("let x = a ;"));
    f.add_child(Node::statement("x"));
    let mut analyzer = FunctionAnalyzer::new();
    analyzer.analyze_function(&f);
    assert_eq!(analyzer.functions.len(), 1);
    let info = &analyzer.functions[0];
    let shown: Vec<(&str, &str)> =
        info.args.iter().map(|arg| (arg.name.as_str(), arg.ty.as_str())).collect();
    assert_eq!(shown, vec![("a", "u8"), ("s", "unknown"), ("_", "unknown"), ("_", "Point")]);
    assert_eq!(info.name, "f");
    assert_eq!(info.return_type, Some("u8".to_string()));
    assert!(info.is_async && info.is_public && !info.is_unsafe);
    assert_eq!(info.line_count, 2);
}

#[test]
fn analyzer_passes_methods_over() {
    let mut analyzer = FunctionAnalyzer::new();
    analyzer.analyze_function(&Node::new(NodeKind::Method, "m"));
    assert!(analyzer.functions.is_empty());
}
