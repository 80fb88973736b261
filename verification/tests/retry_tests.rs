use ast_toolkit::retry::{
    parse_retry_args, retry_macro, retry_with, ArgValue, RetryArg, RetrySettings, DEFAULT_DELAY_MS,
    DEFAULT_RETRIES,
};
use ast_toolkit::tree::{Node, NodeKind, Param};

fn number(name: &str, digits: &str) -> RetryArg {
    RetryArg { name: name.to_string(), value: ArgValue::Int(digits.to_string()) }
}

fn other(name: &str) -> RetryArg {
    RetryArg { name: name.to_string(), value: ArgValue::Other }
}

fn fetch_data() -> Node {
    let mut function = Node::new(NodeKind::Function, "fetch_data");
    function.set_async();
    function.set_public();
    function.add_attribute("#[retry(retries = 5, delay = 200)]");
    function.add_member(Param::written("url", "& str", true, false));
    function.set_return_type("Result<String, reqwest::Error>");
    function.add_child(Node::statement("let response = reqwest::get(url).await?;"));
    function.add_child(Node::statement("Ok(text)"));
    function.set_span(2, 5);
    function
}

#[test]
fn settings_default_to_three_attempts_and_a_hundred_milliseconds() {
    let settings = parse_retry_args(&vec![]);
    assert_eq!(settings, RetrySettings { max_retries: 3, delay_ms: 100 });
    assert_eq!(DEFAULT_RETRIES, 3);
    assert_eq!(DEFAULT_DELAY_MS, 100);
}

#[test]
fn settings_are_read_from_the_arguments() {
    let settings = parse_retry_args(&vec![number("retries", "5"), number("delay", "200")]);
    assert_eq!(settings, RetrySettings { max_retries: 5, delay_ms: 200 });
}

#[test]
fn later_argument_counts() {
    let settings = parse_retry_args(&vec![number("retries", "5"), number("retries", "8")]);
    assert_eq!(settings.max_retries, 8);
}

#[test]
fn number_that_does_not_fit_sets_the_default() {
    let settings =
        parse_retry_args(&vec![number("retries", "5"), number("retries", "99999999999"), number("delay", "x")]);
    assert_eq!(settings, RetrySettings { max_retries: 3, delay_ms: 100 });
}

#[test]
fn other_arguments_change_nothing() {
    let settings = parse_retry_args(&vec![
        number("retries", "5"),
        other("retries"),
        number("attempts", "9"),
        other("delay"),
    ]);
    assert_eq!(settings, RetrySettings { max_retries: 5, delay_ms: 100 });
}

#[test]
fn asynchronous_function_is_kept_and_wrapped() {
    let input = fetch_data();
    let functions = retry_macro(&vec![number("retries", "5"), number("delay", "200")], &input);
    assert_eq!(functions.len(), 2);
    let kept = &functions[0];
    assert_eq!(kept.name, "__original_fetch_data");
    assert!(kept.is_public);
    assert!(!kept.is_async);
    assert!(kept.attributes.is_empty());
    assert_eq!(kept.params, input.params);
    assert_eq!(kept.return_type, input.return_type);
    assert_eq!(kept.body, input.body);
    assert_eq!(kept.span, None);
    let wrapper = &functions[1];
    assert_eq!(wrapper.name, "fetch_data");
    assert!(wrapper.is_async && wrapper.is_public);
    assert_eq!(wrapper.params, vec![Param::written("url", "& str", true, false)]);
    assert_eq!(wrapper.return_type, input.return_type);
    let texts: Vec<&str> = wrapper.body.iter().map(|node| node.name.as_str()).collect();
    assert_eq!(texts, vec!["use std::time::Duration;", "let mut attempts = 0;", "loop"]);
    let repeat = &wrapper.body[2];
    assert_eq!(repeat.body[0].name, "attempts += 1;");
    let outcome = &repeat.body[1];
    assert_eq!(outcome.kind, NodeKind::MatchExpression);
    assert_eq!(outcome.name, "__original_fetch_data(url).await");
    assert_eq!(outcome.body[0].name, "Ok(result)");
    let failure = &outcome.body[1];
    assert_eq!(failure.name, "Err(e)");
    assert_eq!(failure.body[0].name, "if attempts >= 5i32");
    assert_eq!(failure.body[0].body[0].name, "return Err(e);");
    assert_eq!(
        failure.body[1].name,
        "eprintln!(\"Attempt {} failed, retrying in {} ms: {:?}\", attempts, 200i32, e);"
    );
    assert_eq!(failure.body[2].name, "tokio::time::sleep(Duration::from_millis(200i32)).await;");
}

#[test]
fn synchronous_wrapper_sleeps_on_the_thread() {
    let mut input = Node::new(NodeKind::Function, "load");
    input.add_receiver("& Self");
    input.add_member(Param::written("(a , b)", "(u8 , u8)", false, false));
    input.add_member(Param::written("path", "& Path", true, false));
    let functions = retry_with(RetrySettings { max_retries: -1, delay_ms: 0 }, &input);
    let wrapper = &functions[1];
    assert!(!wrapper.is_async);
    let texts: Vec<&str> = wrapper.body.iter().map(|node| node.name.as_str()).collect();
    assert_eq!(
        texts,
        vec!["use std::thread::sleep;", "use std::time::Duration;", "let mut attempts = 0;", "loop"]
    );
    let outcome = &wrapper.body[3].body[1];
    assert_eq!(outcome.name, "__original_load(self, , path)");
    let failure = &outcome.body[1];
    assert_eq!(failure.body[0].name, "if attempts >= -1i32");
    assert_eq!(failure.body[2].name, "sleep(Duration::from_millis(0i32));");
}

#[test]
fn node_of_another_kind_is_handed_back() {
    let mut record = Node::new(NodeKind::Struct, "User");
    record.add_param("id", "u64");
    let functions = retry_macro(&vec![], &record);
    assert_eq!(functions, vec![record]);
}

#[test]
fn generics_are_kept_and_the_where_clause_is_not() {
    let mut input = Node::new(NodeKind::Function, "load");
    input.set_generics("< T : Clone >", "< T >", "where T : Send");
    input.add_param("item", "T");
    let functions = retry_macro(&vec![], &input);
    for function in &functions {
        assert_eq!(function.generics, "< T : Clone >");
        assert_eq!(function.type_arguments, "< T >");
        assert_eq!(function.where_clause, "");
    }
}

#[test]
fn method_is_handed_back_as_it_is() {
    let method = Node::new(NodeKind::Method, "load");
    assert_eq!(retry_macro(&vec![], &method), vec![method.clone()]);
}
