//! The retry wrapper: from a fallible function it makes two, the function
//! itself under another name and a wrapper under its own name that calls
//! it again after a failure, up to a number of attempts, with a pause in
//! between.
use crate::text::{
    concat2, concat3, join, joined, parse_decimal_i32, parse_i32, signed_decimal,
    signed_decimal_string, str_equal,
};
use crate::tree::{
    clone_nodes, clone_optional_text, clone_params, lemma_body_view, nodes_view, Node, NodeKind,
    NodeView, ParamView,
};
use vstd::prelude::*;
use vstd::string::*;

verus! {

/// The value of an argument: an integer literal, by the text of its
/// number, or anything else.
#[derive(Debug, PartialEq, Eq)]
pub enum ArgValue {
    Int(String),
    Other,
}

/// One argument of the form `name = value`.
#[derive(Debug, PartialEq, Eq)]
pub struct RetryArg {
    pub name: String,
    pub value: ArgValue,
}

/// The view of a [`RetryArg`]: its name, and the text of its number where
/// the value is an integer literal.
pub struct RetryArgView {
    pub name: Seq<char>,
    pub number: Option<Seq<char>>,
}

impl View for RetryArg {
    type V = RetryArgView;

    open spec fn view(&self) -> RetryArgView {
        RetryArgView {
            name: self.name@,
            number: match self.value {
                ArgValue::Int(text) => Some(text@),
                ArgValue::Other => None,
            },
        }
    }
}

impl DeepView for RetryArg {
    type V = RetryArgView;

    open spec fn deep_view(&self) -> RetryArgView {
        self@
    }
}

/// How often the wrapper tries, and how many milliseconds it waits
/// between two attempts.
#[derive(Clone, Copy, Debug, PartialEq, Eq, Structural)]
pub struct RetrySettings {
    pub max_retries: i32,
    pub delay_ms: i32,
}

/// The number of attempts where none is given.
pub const DEFAULT_RETRIES: i32 = 3;

/// The pause in milliseconds where none is given.
pub const DEFAULT_DELAY_MS: i32 = 100;

/// The number that an integer literal sets: the one it writes, or
/// `fallback` where it writes none that fits.
pub open spec fn number_or(text: Seq<char>, fallback: i32) -> i32 {
    match parse_i32(text) {
        Some(number) => number,
        None => fallback,
    }
}

/// The settings after one more argument. `retries` and `delay` with an
/// integer literal set their number; any other argument changes nothing.
pub open spec fn settings_after(settings: RetrySettings, arg: RetryArgView) -> RetrySettings {
    if arg.name == "retries"@ && arg.number is Some {
        RetrySettings {
            max_retries: number_or(arg.number->Some_0, DEFAULT_RETRIES),
            ..settings
        }
    } else if arg.name == "delay"@ && arg.number is Some {
        RetrySettings { delay_ms: number_or(arg.number->Some_0, DEFAULT_DELAY_MS), ..settings }
    } else {
        settings
    }
}

/// The settings that a list of arguments gives: the defaults, changed by
/// the arguments in their order, so that of two arguments for one number
/// the later counts.
pub open spec fn settings_of(args: Seq<RetryArgView>) -> RetrySettings
    decreases args.len(),
{
    if args.len() == 0 {
        RetrySettings { max_retries: DEFAULT_RETRIES, delay_ms: DEFAULT_DELAY_MS }
    } else {
        settings_after(settings_of(args.drop_last()), args.last())
    }
}

/// Reads the settings from the arguments.
pub fn parse_retry_args(args: &Vec<RetryArg>) -> (settings: RetrySettings)
    ensures
        settings == settings_of(args.deep_view()),
{
    let ghost views = args.deep_view();
    let mut settings = RetrySettings { max_retries: DEFAULT_RETRIES, delay_ms: DEFAULT_DELAY_MS };
    let mut i: usize = 0;
    assert(views.take(0) =~= Seq::empty());
    while i < args.len()
        invariant
            i <= args@.len(),
            views == args.deep_view(),
            settings == settings_of(views.take(i as int)),
        decreases args@.len() - i,
    {
        proof {
            assert(views.take(i + 1).drop_last() =~= views.take(i as int));
            assert(views.take(i + 1).last() == args@[i as int]@);
        }
        let arg = &args[i];
        match &arg.value {
            ArgValue::Int(text) => {
                if str_equal(arg.name.as_str(), "retries") {
                    settings.max_retries = match parse_decimal_i32(text.as_str()) {
                        Some(number) => number,
                        None => DEFAULT_RETRIES,
                    };
                } else if str_equal(arg.name.as_str(), "delay") {
                    settings.delay_ms = match parse_decimal_i32(text.as_str()) {
                        Some(number) => number,
                        None => DEFAULT_DELAY_MS,
                    };
                }
            },
            ArgValue::Other => {},
        }
        i = i + 1;
    }
    assert(views.take(args@.len() as int) =~= views);
    settings
}

/// How a number is written into the wrapper: in decimal, with its type
/// behind it.
pub open spec fn number_literal(number: i32) -> Seq<char> {
    signed_decimal(number as int) + "i32"@
}

/// How a parameter is handed on in a call: by its name; a parameter whose
/// pattern is no name cannot be handed on and leaves an empty place.
pub open spec fn argument_text(param: ParamView) -> Seq<char> {
    if param.is_name {
        param.name
    } else {
        Seq::empty()
    }
}

/// The arguments of the call that hands every parameter on.
pub open spec fn call_arguments(params: Seq<ParamView>) -> Seq<char> {
    joined(Seq::new(params.len(), |i: int| argument_text(params[i])), ", "@)
}

/// The name under which the function itself is kept.
pub open spec fn kept_name(name: Seq<char>) -> Seq<char> {
    "__original_"@ + name
}

/// The call of the function itself; an asynchronous one is awaited.
pub open spec fn call_text(input: NodeView) -> Seq<char> {
    let call = kept_name(input.name) + "("@ + call_arguments(input.params) + ")"@;
    if input.is_async {
        call + ".await"@
    } else {
        call
    }
}

/// The statement that pauses between two attempts.
pub open spec fn pause_text(is_async: bool, delay_ms: i32) -> Seq<char> {
    if is_async {
        "tokio::time::sleep(Duration::from_millis("@ + number_literal(delay_ms)
            + ")).await;"@
    } else {
        "sleep(Duration::from_millis("@ + number_literal(delay_ms) + "));"@
    }
}

/// What happens after a failed attempt: the error is handed back where
/// the attempts are used up, else the failure is reported and the
/// wrapper pauses.
pub open spec fn failure_arm(input: NodeView, settings: RetrySettings) -> NodeView {
    NodeView::leaf(NodeKind::MatchArm, "Err(e)"@).with_child(
        NodeView::leaf(
            NodeKind::Other,
            "if attempts >= "@ + number_literal(settings.max_retries),
        ).with_child(NodeView::statement("return Err(e);"@)),
    ).with_child(
        NodeView::statement(
            "eprintln!(\"Attempt {} failed, retrying in {} ms: {:?}\", attempts, "@
                + number_literal(settings.delay_ms) + ", e);"@,
        ),
    ).with_child(NodeView::statement(pause_text(input.is_async, settings.delay_ms)))
}

/// The loop of the wrapper: it counts the attempt, calls the function
/// itself and hands its result back where it succeeded.
pub open spec fn retry_loop(input: NodeView, settings: RetrySettings) -> NodeView {
    NodeView::leaf(NodeKind::Other, "loop"@).with_child(
        NodeView::statement("attempts += 1;"@),
    ).with_child(
        NodeView::leaf(NodeKind::MatchExpression, call_text(input)).with_child(
            NodeView::leaf(NodeKind::MatchArm, "Ok(result)"@).with_child(
                NodeView::statement("return Ok(result),"@),
            ),
        ).with_child(failure_arm(input, settings)),
    )
}

/// The body of the wrapper.
pub open spec fn retry_body(input: NodeView, settings: RetrySettings) -> Seq<NodeView> {
    let tail = seq![
        NodeView::statement("use std::time::Duration;"@),
        NodeView::statement("let mut attempts = 0;"@),
        retry_loop(input, settings),
    ];
    if input.is_async {
        tail
    } else {
        seq![NodeView::statement("use std::thread::sleep;"@)] + tail
    }
}

/// The function itself under its other name: its visibility, generic
/// parameters, parameters, return type and body are kept; its modifiers,
/// annotations, `where` clause and position are not.
pub open spec fn kept_function(input: NodeView) -> NodeView {
    NodeView {
        kind: NodeKind::Function,
        name: kept_name(input.name),
        is_public: input.is_public,
        is_async: false,
        is_unsafe: false,
        generics: input.generics,
        type_arguments: input.type_arguments,
        where_clause: Seq::empty(),
        attributes: Seq::empty(),
        named_fields: false,
        params: input.params,
        return_type: input.return_type,
        body: input.body,
        span: None,
    }
}

/// The wrapper: it has the name, visibility, generic parameters,
/// parameters and return type of the function, is asynchronous where the
/// function is, and retries. It has no `where` clause.
pub open spec fn wrapper_function(input: NodeView, settings: RetrySettings) -> NodeView {
    NodeView {
        kind: NodeKind::Function,
        name: input.name,
        is_public: input.is_public,
        is_async: input.is_async,
        is_unsafe: false,
        generics: input.generics,
        type_arguments: input.type_arguments,
        where_clause: Seq::empty(),
        attributes: Seq::empty(),
        named_fields: false,
        params: input.params,
        return_type: input.return_type,
        body: retry_body(input, settings),
        span: None,
    }
}

/// What the retry wrapper makes of `input`: of a function the function
/// itself under its other name and then the wrapper; a node of another
/// kind is handed back as it is.
pub open spec fn retried(input: NodeView, settings: RetrySettings) -> Seq<NodeView> {
    if input.kind == NodeKind::Function {
        seq![kept_function(input), wrapper_function(input, settings)]
    } else {
        seq![input]
    }
}

fn build_call_text(input: &Node) -> (text: String)
    ensures
        text@ == call_text(input@),
{
    let ghost params = input@.params;
    let mut names: Vec<String> = Vec::new();
    let mut i: usize = 0;
    while i < input.params.len()
        invariant
            i <= input.params@.len(),
            params == input@.params,
            names@.len() == i,
            forall|k: int| 0 <= k < i ==> (#[trigger] names@[k])@ == argument_text(params[k]),
        decreases input.params@.len() - i,
    {
        if input.params[i].is_name {
            names.push(input.params[i].name.clone());
        } else {
            names.push(String::new());
        }
        i = i + 1;
    }
    assert(Seq::new(names@.len(), |i: int| names@[i]@) =~= Seq::new(
        params.len(),
        |i: int| argument_text(params[i]),
    ));
    let mut text = String::from_str("__original_");
    text.append(input.name.as_str());
    text.append("(");
    text.append(join(&names, ", ").as_str());
    text.append(")");
    if input.is_async {
        text.append(".await");
    }
    text
}

fn build_number_literal(number: i32) -> (text: String)
    ensures
        text@ == number_literal(number),
{
    let mut text = signed_decimal_string(number);
    text.append("i32");
    text
}

fn build_failure_arm(input: &Node, settings: RetrySettings) -> (arm: Node)
    ensures
        arm@ == failure_arm(input@, settings),
{
    let delay = build_number_literal(settings.delay_ms);
    let mut spent = Node::new(
        NodeKind::Other,
        concat2("if attempts >= ", build_number_literal(settings.max_retries).as_str()).as_str(),
    );
    spent.add_child(Node::statement("return Err(e);"));
    let pause = if input.is_async {
        concat3("tokio::time::sleep(Duration::from_millis(", delay.as_str(), ")).await;")
    } else {
        concat3("sleep(Duration::from_millis(", delay.as_str(), "));")
    };
    let mut arm = Node::new(NodeKind::MatchArm, "Err(e)");
    arm.add_child(spent);
    arm.add_child(
        Node::statement(
            concat3(
                "eprintln!(\"Attempt {} failed, retrying in {} ms: {:?}\", attempts, ",
                delay.as_str(),
                ", e);",
            ).as_str(),
        ),
    );
    arm.add_child(Node::statement(pause.as_str()));
    arm
}

fn build_retry_body(input: &Node, settings: RetrySettings) -> (body: Vec<Node>)
    ensures
        nodes_view(body@) == retry_body(input@, settings),
{
    let mut success = Node::new(NodeKind::MatchArm, "Ok(result)");
    success.add_child(Node::statement("return Ok(result),"));
    let mut outcome = Node::new(NodeKind::MatchExpression, build_call_text(input).as_str());
    outcome.add_child(success);
    outcome.add_child(build_failure_arm(input, settings));
    let mut repeat = Node::new(NodeKind::Other, "loop");
    repeat.add_child(Node::statement("attempts += 1;"));
    repeat.add_child(outcome);
    let mut body: Vec<Node> = Vec::new();
    if !input.is_async {
        body.push(Node::statement("use std::thread::sleep;"));
    }
    body.push(Node::statement("use std::time::Duration;"));
    body.push(Node::statement("let mut attempts = 0;"));
    body.push(repeat);
    assert(nodes_view(body@) =~= retry_body(input@, settings));
    body
}

/// Wraps the function `input` with the settings given.
pub fn retry_with(settings: RetrySettings, input: &Node) -> (functions: Vec<Node>)
    ensures
        nodes_view(functions@) == retried(input@, settings),
{
    let mut functions: Vec<Node> = Vec::new();
    if input.kind != NodeKind::Function {
        functions.push(input.clone());
        assert(nodes_view(functions@) =~= seq![input@]);
        return functions;
    }
    proof {
        lemma_body_view(*input);
    }
    let kept = Node {
        kind: NodeKind::Function,
        name: concat2("__original_", input.name.as_str()),
        is_public: input.is_public,
        is_async: false,
        is_unsafe: false,
        generics: input.generics.clone(),
        type_arguments: input.type_arguments.clone(),
        where_clause: String::new(),
        attributes: Vec::new(),
        named_fields: false,
        params: clone_params(&input.params),
        return_type: clone_optional_text(&input.return_type),
        body: clone_nodes(&input.body),
        span: None,
    };
    let wrapper = Node {
        kind: NodeKind::Function,
        name: input.name.clone(),
        is_public: input.is_public,
        is_async: input.is_async,
        is_unsafe: false,
        generics: input.generics.clone(),
        type_arguments: input.type_arguments.clone(),
        where_clause: String::new(),
        attributes: Vec::new(),
        named_fields: false,
        params: clone_params(&input.params),
        return_type: clone_optional_text(&input.return_type),
        body: build_retry_body(input, settings),
        span: None,
    };
    proof {
        lemma_body_view(kept);
        lemma_body_view(wrapper);
        assert(kept@.attributes =~= Seq::empty());
        assert(wrapper@.attributes =~= Seq::empty());
        assert(kept@ == kept_function(input@));
        assert(wrapper@ == wrapper_function(input@, settings));
    }
    functions.push(kept);
    functions.push(wrapper);
    assert(nodes_view(functions@) =~= retried(input@, settings));
    functions
}

/// Wraps the function `input` in retry logic: the arguments `retries` and
/// `delay` set the number of attempts and the pause in milliseconds,
/// which are 3 and 100 where they are not given.
pub fn retry_macro(args: &Vec<RetryArg>, input: &Node) -> (functions: Vec<Node>)
    ensures
        nodes_view(functions@) == retried(input@, settings_of(args.deep_view())),
{
    retry_with(parse_retry_args(args), input)
}

} // verus!
