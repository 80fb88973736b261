//! The lint rule engine: a registry of independent rules, each of which
//! reads the whole tree and reports diagnostics, and a pass that runs every
//! rule in registration order and merges what they report. A rule that
//! fails is reported as one diagnostic of its own and the pass goes on.
use crate::text::{decimal, decimal_string, str_equal};
use crate::tree::{
    clone_texts, lemma_body_view, preorder_all, Node, NodeKind, NodeView, Span, Tree,
};
use crate::visitor::{collected, lemma_collected_agrees, traverse, Visit};
use vstd::prelude::*;
use vstd::string::*;

verus! {

/// One reported issue: what is wrong, which rule says so, and where.
#[derive(Debug, PartialEq, Eq)]
pub struct LintError {
    pub message: String,
    pub rule_name: String,
    pub location: Option<Span>,
}

/// The view of a [`LintError`].
pub struct LintErrorView {
    pub message: Seq<char>,
    pub rule_name: Seq<char>,
    pub location: Option<Span>,
}

impl View for LintError {
    type V = LintErrorView;

    open spec fn view(&self) -> LintErrorView {
        LintErrorView {
            message: self.message@,
            rule_name: self.rule_name@,
            location: self.location,
        }
    }
}

impl DeepView for LintError {
    type V = LintErrorView;

    open spec fn deep_view(&self) -> LintErrorView {
        self@
    }
}

impl LintErrorView {
    /// How a diagnostic is shown: the rule in square brackets, then the
    /// message.
    pub open spec fn rendered(self) -> Seq<char> {
        "["@ + self.rule_name + "] "@ + self.message
    }
}

impl Clone for LintError {
    fn clone(&self) -> (copy: LintError)
        ensures
            copy@ == self@,
    {
        LintError {
            message: self.message.clone(),
            rule_name: self.rule_name.clone(),
            location: self.location,
        }
    }
}

impl LintError {
    /// A diagnostic of the rule `rule_name`, with no location.
    pub fn new(message: String, rule_name: &str) -> (error: LintError)
        ensures
            error@ == (LintErrorView {
                message: message@,
                rule_name: rule_name@,
                location: None,
            }),
    {
        LintError { message, rule_name: String::from_str(rule_name), location: None }
    }

    /// The same diagnostic at `location`.
    pub fn at(self, location: Option<Span>) -> (error: LintError)
        ensures
            error@ == (LintErrorView { location, ..self@ }),
    {
        LintError { message: self.message, rule_name: self.rule_name, location }
    }

    /// The line that shows this diagnostic.
    pub fn render(&self) -> (line: String)
        ensures
            line@ == self@.rendered(),
    {
        let mut line = String::from_str("[");
        line.append(self.rule_name.as_str());
        line.append("] ");
        line.append(self.message.as_str());
        line
    }
}

/// The name of the rule on `match` expressions without a catch-all arm.
pub open spec fn exhaustive_match_rule() -> Seq<char> {
    "exhaustive_match"@
}

/// The name of the rule on calls of `unwrap`.
pub open spec fn unwrap_used_rule() -> Seq<char> {
    "unwrap_used"@
}

/// The name of the rule on functions with too many statements.
pub open spec fn complex_function_rule() -> Seq<char> {
    "complex_function"@
}

/// The largest number of statements a function may have by default.
pub const DEFAULT_STATEMENT_LIMIT: usize = 20;

/// Whether one of the node's children is the arm `_`.
pub open spec fn has_wildcard_arm(node: NodeView) -> bool {
    exists|i: int| 0 <= i < node.body.len() && is_wildcard_arm(#[trigger] node.body[i])
}

/// Whether `node` is the arm `_` of a match.
pub open spec fn is_wildcard_arm(node: NodeView) -> bool {
    node.kind == NodeKind::MatchArm && node.name == "_"@
}

/// What the exhaustiveness rule says of a match without a catch-all arm.
pub open spec fn exhaustive_match_report(node: NodeView) -> LintErrorView {
    LintErrorView {
        message:
            "Match expression might not be exhaustive. Consider adding a wildcard '_' pattern"@,
        rule_name: exhaustive_match_rule(),
        location: node.span,
    }
}

/// What the exhaustiveness rule reports for one node: a diagnostic where
/// the node is a match without a catch-all arm, else nothing.
pub open spec fn exhaustive_match_facts(node: NodeView) -> Seq<LintErrorView> {
    if node.kind == NodeKind::MatchExpression && !has_wildcard_arm(node) {
        seq![exhaustive_match_report(node)]
    } else {
        Seq::empty()
    }
}

/// What the exhaustiveness rule reports for a tree.
pub open spec fn exhaustive_match_findings(tree: Seq<NodeView>) -> Seq<LintErrorView> {
    collected(|node: NodeView| exhaustive_match_facts(node), preorder_all(tree))
}

/// The rule that flags every match without a catch-all arm. Whether the
/// other arms together cover every value is not looked at.
pub struct ExhaustiveMatch;

fn wildcard_arm_present(node: &Node) -> (present: bool)
    ensures
        present == has_wildcard_arm(node@),
{
    proof {
        lemma_body_view(*node);
    }
    let mut i: usize = 0;
    while i < node.body.len()
        invariant
            i <= node.body@.len(),
            node@.body.len() == node.body@.len(),
            forall|k: int| 0 <= k < node.body@.len() ==> node@.body[k] == (#[trigger] node.body@[k])@,
            forall|k: int| 0 <= k < i ==> !is_wildcard_arm(#[trigger] node@.body[k]),
        decreases node.body@.len() - i,
    {
        let child = &node.body[i];
        if child.kind == NodeKind::MatchArm && str_equal(child.name.as_str(), "_") {
            assert(is_wildcard_arm(node@.body[i as int]));
            return true;
        }
        i = i + 1;
    }
    false
}

impl Visit for ExhaustiveMatch {
    type Fact = LintError;

    open spec fn facts(&self, node: NodeView) -> Seq<LintErrorView> {
        exhaustive_match_facts(node)
    }

    fn visit(&self, node: &Node) -> (found: Vec<LintError>) {
        let mut found: Vec<LintError> = Vec::new();
        if node.kind == NodeKind::MatchExpression && !wildcard_arm_present(node) {
            let error = LintError::new(
                String::from_str(
                    "Match expression might not be exhaustive. Consider adding a wildcard '_' pattern",
                ),
                "exhaustive_match",
            ).at(node.span);
            found.push(error);
            assert(found.deep_view() =~= seq![exhaustive_match_report(node@)]);
        } else {
            assert(found.deep_view() =~= Seq::empty());
        }
        found
    }
}

/// What the risky-call rule says of a call of `callee`.
pub open spec fn risky_call_report(rule_name: Seq<char>, node: NodeView) -> LintErrorView {
    LintErrorView {
        message: "Use of "@ + node.name
            + "() detected. Consider using ? or match/if let for error handling"@,
        rule_name,
        location: node.span,
    }
}

/// What the risky-call rule reports for one node: a diagnostic where the
/// node is a method call whose callee is on the denylist, else nothing.
pub open spec fn risky_call_facts(
    rule_name: Seq<char>,
    denylist: Seq<Seq<char>>,
    node: NodeView,
) -> Seq<LintErrorView> {
    if node.kind == NodeKind::MethodCall && denylist.contains(node.name) {
        seq![risky_call_report(rule_name, node)]
    } else {
        Seq::empty()
    }
}

/// What the risky-call rule reports for a tree.
pub open spec fn risky_call_findings(
    rule_name: Seq<char>,
    denylist: Seq<Seq<char>>,
    tree: Seq<NodeView>,
) -> Seq<LintErrorView> {
    collected(|node: NodeView| risky_call_facts(rule_name, denylist, node), preorder_all(tree))
}

/// The rule that flags every method call whose callee is on a denylist.
/// Its diagnostics carry `rule_name`.
pub struct RiskyCalls {
    pub rule_name: String,
    pub denylist: Vec<String>,
}

fn is_listed(names: &Vec<String>, name: &str) -> (found: bool)
    ensures
        found == names.deep_view().contains(name@),
{
    let mut i: usize = 0;
    while i < names.len()
        invariant
            i <= names@.len(),
            forall|k: int| 0 <= k < i ==> (#[trigger] names.deep_view()[k]) != name@,
        decreases names@.len() - i,
    {
        if str_equal(names[i].as_str(), name) {
            assert(names.deep_view()[i as int] == name@);
            return true;
        }
        i = i + 1;
    }
    false
}

impl RiskyCalls {
    /// The rule on calls of `unwrap`.
    pub fn unwrap_usage() -> (rule: RiskyCalls)
        ensures
            rule.rule_name@ == unwrap_used_rule(),
            rule.denylist.deep_view() == seq!["unwrap"@],
    {
        let mut denylist: Vec<String> = Vec::new();
        denylist.push(String::from_str("unwrap"));
        assert(denylist.deep_view() =~= seq!["unwrap"@]);
        RiskyCalls { rule_name: String::from_str("unwrap_used"), denylist }
    }
}

impl Visit for RiskyCalls {
    type Fact = LintError;

    open spec fn facts(&self, node: NodeView) -> Seq<LintErrorView> {
        risky_call_facts(self.rule_name@, self.denylist.deep_view(), node)
    }

    fn visit(&self, node: &Node) -> (found: Vec<LintError>) {
        let mut found: Vec<LintError> = Vec::new();
        if node.kind == NodeKind::MethodCall && is_listed(&self.denylist, node.name.as_str()) {
            let mut message = String::from_str("Use of ");
            message.append(node.name.as_str());
            message.append("() detected. Consider using ? or match/if let for error handling");
            let error = LintError::new(message, self.rule_name.as_str()).at(node.span);
            found.push(error);
            assert(found.deep_view() =~= seq![risky_call_report(self.rule_name@, node@)]);
        } else {
            assert(found.deep_view() =~= Seq::empty());
        }
        found
    }
}

/// What the size rule says of a function with more statements than `limit`.
pub open spec fn function_size_report(limit: usize, node: NodeView) -> LintErrorView {
    LintErrorView {
        message: "Function '"@ + node.name + "' has "@ + decimal(node.body.len())
            + " statements, which exceeds the recommended maximum of "@ + decimal(limit as nat),
        rule_name: complex_function_rule(),
        location: node.span,
    }
}

/// What the size rule reports for one node: a diagnostic where the node
/// is a function with more than `limit` statements directly in its body,
/// else nothing. A method is no function here, whatever its size.
pub open spec fn function_size_facts(limit: usize, node: NodeView) -> Seq<LintErrorView> {
    if node.kind == NodeKind::Function && node.body.len() > limit {
        seq![function_size_report(limit, node)]
    } else {
        Seq::empty()
    }
}

/// What the size rule reports for a tree.
pub open spec fn function_size_findings(limit: usize, tree: Seq<NodeView>) -> Seq<LintErrorView> {
    collected(|node: NodeView| function_size_facts(limit, node), preorder_all(tree))
}

/// The rule that flags every function with more than `limit` statements
/// directly in its body. Statements nested deeper are not counted.
pub struct FunctionSize {
    pub limit: usize,
}

impl Visit for FunctionSize {
    type Fact = LintError;

    open spec fn facts(&self, node: NodeView) -> Seq<LintErrorView> {
        function_size_facts(self.limit, node)
    }

    fn visit(&self, node: &Node) -> (found: Vec<LintError>) {
        proof {
            lemma_body_view(*node);
        }
        let mut found: Vec<LintError> = Vec::new();
        if node.kind == NodeKind::Function && node.body.len() > self.limit {
            let mut message = String::from_str("Function '");
            message.append(node.name.as_str());
            message.append("' has ");
            message.append(decimal_string(node.body.len() as u64).as_str());
            message.append(" statements, which exceeds the recommended maximum of ");
            message.append(decimal_string(self.limit as u64).as_str());
            let error = LintError::new(message, "complex_function").at(node.span);
            found.push(error);
            assert(found.deep_view() =~= seq![function_size_report(self.limit, node@)]);
        } else {
            assert(found.deep_view() =~= Seq::empty());
        }
        found
    }
}

/// Flags every match of the tree that has no catch-all arm, in the order
/// of the walk.
pub fn check_exhaustive_match(tree: &Tree) -> (found: Vec<LintError>)
    ensures
        found.deep_view() == exhaustive_match_findings(tree@),
{
    let rule = ExhaustiveMatch;
    proof {
        lemma_collected_agrees(
            |node: NodeView| rule.facts(node),
            |node: NodeView| exhaustive_match_facts(node),
            preorder_all(tree@),
        );
    }
    traverse(tree, &rule)
}

/// Flags every method call of the tree whose callee is on `denylist`, in
/// the order of the walk. The diagnostics carry `rule_name`.
pub fn check_risky_calls(tree: &Tree, rule_name: &str, denylist: &Vec<String>) -> (found: Vec<
    LintError,
>)
    ensures
        found.deep_view() == risky_call_findings(rule_name@, denylist.deep_view(), tree@),
{
    let rule = RiskyCalls { rule_name: String::from_str(rule_name), denylist: clone_texts(denylist) };
    proof {
        lemma_collected_agrees(
            |node: NodeView| rule.facts(node),
            |node: NodeView| risky_call_facts(rule_name@, denylist.deep_view(), node),
            preorder_all(tree@),
        );
    }
    traverse(tree, &rule)
}

/// Flags every call of `unwrap` in the tree, in the order of the walk.
pub fn check_unwrap_usage(tree: &Tree) -> (found: Vec<LintError>)
    ensures
        found.deep_view() == risky_call_findings(unwrap_used_rule(), seq!["unwrap"@], tree@),
{
    let rule = RiskyCalls::unwrap_usage();
    proof {
        lemma_collected_agrees(
            |node: NodeView| rule.facts(node),
            |node: NodeView| risky_call_facts(unwrap_used_rule(), seq!["unwrap"@], node),
            preorder_all(tree@),
        );
    }
    traverse(tree, &rule)
}

/// Flags every function of the tree with more than `limit` statements
/// directly in its body, in the order of the walk.
pub fn check_function_size(tree: &Tree, limit: usize) -> (found: Vec<LintError>)
    ensures
        found.deep_view() == function_size_findings(limit, tree@),
{
    let rule = FunctionSize { limit };
    proof {
        lemma_collected_agrees(
            |node: NodeView| rule.facts(node),
            |node: NodeView| function_size_facts(limit, node),
            preorder_all(tree@),
        );
    }
    traverse(tree, &rule)
}

/// Flags every function of the tree with more than twenty statements
/// directly in its body, in the order of the walk.
pub fn check_complex_functions(tree: &Tree) -> (found: Vec<LintError>)
    ensures
        found.deep_view() == function_size_findings(DEFAULT_STATEMENT_LIMIT, tree@),
{
    check_function_size(tree, DEFAULT_STATEMENT_LIMIT)
}

/// Why a rule could not finish its check.
#[derive(Debug, PartialEq, Eq)]
pub struct RuleExecutionError {
    pub reason: String,
}

/// Why no tree could be had from a source text.
#[derive(Debug, PartialEq, Eq)]
pub struct ParseError {
    pub message: String,
}

/// The view of what a check hands back: the diagnostics by their views, or
/// the reason of the failure.
pub open spec fn outcome_view(outcome: Result<Vec<LintError>, RuleExecutionError>) -> Result<
    Seq<LintErrorView>,
    Seq<char>,
> {
    match outcome {
        Ok(found) => Ok(found.deep_view()),
        Err(error) => Err(error.reason@),
    }
}

/// The check of a rule: it reads the whole tree and either reports
/// diagnostics or fails. What it hands back is a function of the tree, so
/// a pass over one tree with one registry always reports the same.
pub trait Check {
    /// What the check hands back for `tree`.
    spec fn outcome(&self, tree: Seq<NodeView>) -> Result<Seq<LintErrorView>, Seq<char>>;

    fn check(&self, tree: &Tree) -> (outcome: Result<Vec<LintError>, RuleExecutionError>)
        ensures
            outcome_view(outcome) == self.outcome(tree@),
    ;
}

/// The checks that come with the engine.
pub enum RuleCheck {
    /// Matches without a catch-all arm.
    ExhaustiveMatch,
    /// Method calls whose callee is on a denylist.
    RiskyCalls(RiskyCalls),
    /// Functions with too many statements.
    FunctionSize(FunctionSize),
    /// A check that was run elsewhere: it hands back the outcome it holds,
    /// whatever the tree.
    Fixed(Result<Vec<LintError>, RuleExecutionError>),
}

/// A copy of a list of diagnostics.
pub fn clone_errors(errors: &Vec<LintError>) -> (copy: Vec<LintError>)
    ensures
        copy.deep_view() == errors.deep_view(),
{
    let mut copy: Vec<LintError> = Vec::new();
    let mut i: usize = 0;
    while i < errors.len()
        invariant
            i <= errors@.len(),
            copy@.len() == i,
            forall|k: int| 0 <= k < i ==> (#[trigger] copy@[k])@ == errors@[k]@,
        decreases errors@.len() - i,
    {
        copy.push(errors[i].clone());
        i = i + 1;
    }
    assert(copy.deep_view() =~= errors.deep_view());
    copy
}

impl Check for RuleCheck {
    open spec fn outcome(&self, tree: Seq<NodeView>) -> Result<Seq<LintErrorView>, Seq<char>> {
        match self {
            RuleCheck::ExhaustiveMatch => Ok(exhaustive_match_findings(tree)),
            RuleCheck::RiskyCalls(rule) => Ok(
                risky_call_findings(rule.rule_name@, rule.denylist.deep_view(), tree),
            ),
            RuleCheck::FunctionSize(rule) => Ok(function_size_findings(rule.limit, tree)),
            RuleCheck::Fixed(outcome) => outcome_view(*outcome),
        }
    }

    fn check(&self, tree: &Tree) -> (outcome: Result<Vec<LintError>, RuleExecutionError>) {
        match self {
            RuleCheck::ExhaustiveMatch => Ok(check_exhaustive_match(tree)),
            RuleCheck::RiskyCalls(rule) => Ok(
                check_risky_calls(tree, rule.rule_name.as_str(), &rule.denylist),
            ),
            RuleCheck::FunctionSize(rule) => Ok(check_function_size(tree, rule.limit)),
            RuleCheck::Fixed(outcome) => match outcome {
                Ok(found) => Ok(clone_errors(found)),
                Err(error) => Err(RuleExecutionError { reason: error.reason.clone() }),
            },
        }
    }
}

/// A rule of the registry: a name, a description and a check.
pub struct LintRule<C> {
    pub name: String,
    pub description: String,
    pub check_fn: C,
}

/// The diagnostic that stands for a rule whose check failed.
pub open spec fn failure_report(rule_name: Seq<char>, reason: Seq<char>) -> LintErrorView {
    LintErrorView {
        message: "Rule '"@ + rule_name + "' failed: "@ + reason,
        rule_name,
        location: None,
    }
}

/// What one rule contributes to a pass: its diagnostics, or, where its
/// check failed, the one diagnostic that says so.
pub open spec fn rule_report<C: Check>(rule: LintRule<C>, tree: Seq<NodeView>) -> Seq<
    LintErrorView,
> {
    match rule.check_fn.outcome(tree) {
        Ok(found) => found,
        Err(reason) => seq![failure_report(rule.name@, reason)],
    }
}

/// What a pass reports: the contributions of the rules, in registration
/// order.
pub open spec fn run_report<C: Check>(rules: Seq<LintRule<C>>, tree: Seq<NodeView>) -> Seq<
    LintErrorView,
>
    decreases rules.len(),
{
    if rules.len() == 0 {
        Seq::empty()
    } else {
        run_report(rules.drop_last(), tree) + rule_report(rules.last(), tree)
    }
}

/// The registry of rules and the pass over a tree.
pub struct RustLinter<C> {
    pub rules: Vec<LintRule<C>>,
}

impl<C: Check> RustLinter<C> {
    /// A registry without rules.
    pub fn empty() -> (linter: RustLinter<C>)
        ensures
            linter.rules@ == Seq::<LintRule<C>>::empty(),
    {
        RustLinter { rules: Vec::new() }
    }

    /// Registers `rule` after the rules that are there. A name may occur
    /// more than once.
    pub fn add_rule(&mut self, rule: LintRule<C>)
        ensures
            final(self).rules@ == old(self).rules@.push(rule),
    {
        self.rules.push(rule);
    }

    /// Runs every rule on `tree`, in registration order, and merges what
    /// they report. A rule that fails contributes the one diagnostic that
    /// names it, and the rules after it still run.
    pub fn run(&self, tree: &Tree) -> (found: Vec<LintError>)
        ensures
            found.deep_view() == run_report(self.rules@, tree@),
    {
        let mut found: Vec<LintError> = Vec::new();
        let mut i: usize = 0;
        assert(self.rules@.take(0) =~= Seq::empty());
        assert(found.deep_view() =~= Seq::empty());
        while i < self.rules.len()
            invariant
                i <= self.rules@.len(),
                found.deep_view() == run_report(self.rules@.take(i as int), tree@),
            decreases self.rules@.len() - i,
        {
            let rule = &self.rules[i];
            let ghost before = found.deep_view();
            match rule.check_fn.check(tree) {
                Ok(mut reported) => {
                    let ghost added = reported.deep_view();
                    found.append(&mut reported);
                    assert(found.deep_view() =~= before + added);
                },
                Err(error) => {
                    let mut message = String::from_str("Rule '");
                    message.append(rule.name.as_str());
                    message.append("' failed: ");
                    message.append(error.reason.as_str());
                    found.push(LintError::new(message, rule.name.as_str()));
                    assert(found.deep_view() =~= before + seq![
                        failure_report(rule.name@, error.reason@),
                    ]);
                },
            }
            proof {
                assert(self.rules@.take(i + 1).drop_last() =~= self.rules@.take(i as int));
            }
            i = i + 1;
        }
        assert(self.rules@.take(self.rules@.len() as int) =~= self.rules@);
        found
    }

    /// The pass over what a parser handed back: its error as it came where
    /// it failed, else what the rules report for the tree.
    pub fn lint_file(&self, parsed: Result<Tree, ParseError>) -> (outcome: Result<
        Vec<LintError>,
        ParseError,
    >)
        ensures
            match parsed {
                Ok(tree) => outcome is Ok && outcome->Ok_0.deep_view() == run_report(
                    self.rules@,
                    tree@,
                ),
                Err(error) => outcome == Err::<Vec<LintError>, ParseError>(error),
            },
    {
        match parsed {
            Ok(tree) => Ok(self.run(&tree)),
            Err(error) => Err(error),
        }
    }
}

/// Whether `rules` are the three rules that a new linter starts with.
pub open spec fn is_default_registry(rules: Seq<LintRule<RuleCheck>>) -> bool {
    &&& rules.len() == 3
    &&& rules[0].name@ == exhaustive_match_rule()
    &&& rules[0].description@ == "Checks for non-exhaustive match expressions"@
    &&& rules[0].check_fn == RuleCheck::ExhaustiveMatch
    &&& rules[1].name@ == unwrap_used_rule()
    &&& rules[1].description@ == "Detects usage of unwrap() which might panic"@
    &&& rules[1].check_fn matches RuleCheck::RiskyCalls(rule) && rule.rule_name@
        == unwrap_used_rule() && rule.denylist.deep_view() == seq!["unwrap"@]
    &&& rules[2].name@ == complex_function_rule()
    &&& rules[2].description@ == "Identifies functions that are too large or complex"@
    &&& rules[2].check_fn == RuleCheck::FunctionSize(FunctionSize { limit: DEFAULT_STATEMENT_LIMIT })
}

impl RustLinter<RuleCheck> {
    /// A linter with the three default rules: matches without a catch-all
    /// arm, calls of `unwrap`, and functions of more than twenty
    /// statements.
    pub fn new() -> (linter: RustLinter<RuleCheck>)
        ensures
            is_default_registry(linter.rules@),
    {
        let mut linter = RustLinter { rules: Vec::new() };
        linter.add_rule(
            LintRule {
                name: String::from_str("exhaustive_match"),
                description: String::from_str("Checks for non-exhaustive match expressions"),
                check_fn: RuleCheck::ExhaustiveMatch,
            },
        );
        linter.add_rule(
            LintRule {
                name: String::from_str("unwrap_used"),
                description: String::from_str("Detects usage of unwrap() which might panic"),
                check_fn: RuleCheck::RiskyCalls(RiskyCalls::unwrap_usage()),
            },
        );
        linter.add_rule(
            LintRule {
                name: String::from_str("complex_function"),
                description: String::from_str(
                    "Identifies functions that are too large or complex",
                ),
                check_fn: RuleCheck::FunctionSize(FunctionSize { limit: DEFAULT_STATEMENT_LIMIT }),
            },
        );
        linter
    }
}

/// The lines that show the outcome of a pass: how many issues were found,
/// then one line for each.
pub open spec fn report_lines(errors: Seq<LintErrorView>) -> Seq<Seq<char>> {
    seq!["Found "@ + decimal(errors.len()) + " lint issues:"@] + Seq::new(
        errors.len(),
        |i: int| errors[i].rendered(),
    )
}

/// Writes the lines that show the outcome of a pass.
pub fn render_report(errors: &Vec<LintError>) -> (lines: Vec<String>)
    ensures
        lines.deep_view() == report_lines(errors.deep_view()),
{
    let mut head = String::from_str("Found ");
    head.append(decimal_string(errors.len() as u64).as_str());
    head.append(" lint issues:");
    let mut lines: Vec<String> = Vec::new();
    lines.push(head);
    let mut i: usize = 0;
    while i < errors.len()
        invariant
            i <= errors@.len(),
            lines@.len() == i + 1,
            lines@[0]@ == "Found "@ + decimal(errors@.len()) + " lint issues:"@,
            forall|k: int| 0 <= k < i ==> (#[trigger] lines@[k + 1])@ == errors@[k]@.rendered(),
        decreases errors@.len() - i,
    {
        lines.push(errors[i].render());
        i = i + 1;
    }
    proof {
        let expected = report_lines(errors.deep_view());
        assert(lines.deep_view().len() == expected.len());
        assert forall|k: int| 0 <= k < expected.len() implies lines.deep_view()[k] == expected[k] by {
            if k > 0 {
                assert(lines@[(k - 1) + 1]@ == errors@[k - 1]@.rendered());
            }
        }
        assert(lines.deep_view() =~= expected);
    }
    lines
}

/// A pass reports the contributions of the rules in registration order:
/// registering one more rule appends what that rule contributes.
pub proof fn lemma_run_in_registration_order<C: Check>(
    rules: Seq<LintRule<C>>,
    rule: LintRule<C>,
    tree: Seq<NodeView>,
)
    ensures
        run_report(rules.push(rule), tree) == run_report(rules, tree) + rule_report(rule, tree),
{
    assert(rules.push(rule).drop_last() =~= rules);
}

/// A pass is a function of the registry and the tree: equal registries on
/// trees with equal views report the same diagnostics in the same order.
pub proof fn lemma_run_deterministic<C: Check>(
    rules: Seq<LintRule<C>>,
    first: Tree,
    second: Tree,
)
    requires
        first@ == second@,
    ensures
        run_report(rules, first@) == run_report(rules, second@),
{
}

/// Rules that report nothing add nothing to a pass.
pub proof fn lemma_silent_rules<C: Check>(rules: Seq<LintRule<C>>, tree: Seq<NodeView>)
    requires
        forall|j: int|
            0 <= j < rules.len() ==> (#[trigger] rules[j]).check_fn.outcome(tree) == Ok::<
                Seq<LintErrorView>,
                Seq<char>,
            >(Seq::empty()),
    ensures
        run_report(rules, tree) == Seq::<LintErrorView>::empty(),
    decreases rules.len(),
{
    if rules.len() > 0 {
        assert(rules.drop_last().len() == rules.len() - 1);
        assert forall|j: int| 0 <= j < rules.drop_last().len() implies (#[trigger] rules.drop_last()[j]).check_fn.outcome(
            tree,
        ) == Ok::<Seq<LintErrorView>, Seq<char>>(Seq::empty()) by {
            assert(rules.drop_last()[j] == rules[j]);
        }
        lemma_silent_rules(rules.drop_last(), tree);
        assert(rules.last() == rules[rules.len() - 1]);
        assert(run_report(rules, tree) =~= Seq::<LintErrorView>::empty());
    }
}

/// Fault isolation: where one rule fails and every other rule reports
/// nothing, the pass reports the one diagnostic that names the failing
/// rule, and nothing else.
pub proof fn lemma_failure_is_reported<C: Check>(
    rules: Seq<LintRule<C>>,
    tree: Seq<NodeView>,
    failing: int,
    reason: Seq<char>,
)
    requires
        0 <= failing < rules.len(),
        rules[failing].check_fn.outcome(tree) == Err::<Seq<LintErrorView>, Seq<char>>(reason),
        forall|j: int|
            0 <= j < rules.len() && j != failing ==> (#[trigger] rules[j]).check_fn.outcome(tree)
                == Ok::<Seq<LintErrorView>, Seq<char>>(Seq::empty()),
    ensures
        run_report(rules, tree) == seq![failure_report(rules[failing].name@, reason)],
    decreases rules.len(),
{
    let front = rules.drop_last();
    assert(rules.last() == rules[rules.len() - 1]);
    if failing == rules.len() - 1 {
        assert forall|j: int| 0 <= j < front.len() implies (#[trigger] front[j]).check_fn.outcome(
            tree,
        ) == Ok::<Seq<LintErrorView>, Seq<char>>(Seq::empty()) by {
            assert(front[j] == rules[j]);
        }
        lemma_silent_rules(front, tree);
        assert(run_report(rules, tree) =~= seq![failure_report(rules[failing].name@, reason)]);
    } else {
        assert(front[failing] == rules[failing]);
        assert forall|j: int| 0 <= j < front.len() && j != failing implies (#[trigger] front[j]).check_fn.outcome(
            tree,
        ) == Ok::<Seq<LintErrorView>, Seq<char>>(Seq::empty()) by {
            assert(front[j] == rules[j]);
        }
        lemma_failure_is_reported(front, tree, failing, reason);
        assert(run_report(rules, tree) =~= seq![failure_report(rules[failing].name@, reason)]);
    }
}

/// A match with a catch-all arm is never flagged, wherever the arm
/// stands; a match without one is flagged exactly once, under the name of
/// the exhaustiveness rule.
pub proof fn lemma_wildcard_arm_decides(node: NodeView, at: int)
    requires
        node.kind == NodeKind::MatchExpression,
    ensures
        0 <= at < node.body.len() && is_wildcard_arm(node.body[at]) ==> exhaustive_match_facts(
            node,
        ) == Seq::<LintErrorView>::empty(),
        !has_wildcard_arm(node) ==> exhaustive_match_facts(node).len() == 1
            && exhaustive_match_facts(node)[0].rule_name == exhaustive_match_rule(),
{
}

/// The size rule draws the line behind the limit: a function with as many
/// statements as the limit is not flagged, and one with more is flagged
/// exactly once, with its name and the number of its statements.
pub proof fn lemma_size_limit_decides(limit: usize, node: NodeView)
    requires
        node.kind == NodeKind::Function,
    ensures
        node.body.len() <= limit ==> function_size_facts(limit, node)
            == Seq::<LintErrorView>::empty(),
        node.body.len() > limit ==> function_size_facts(limit, node) == seq![
            function_size_report(limit, node),
        ],
{
}

/// The size rule looks at functions that stand by themselves: a method of
/// an implementation block or of a trait is never flagged, however many
/// statements it has.
pub proof fn lemma_size_rule_passes_methods(limit: usize, node: NodeView)
    requires
        node.kind == NodeKind::Method,
    ensures
        function_size_facts(limit, node) == Seq::<LintErrorView>::empty(),
{
}

} // verus!
