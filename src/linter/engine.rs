use vstd::prelude::*;
use vstd::string::*;

use crate::ast::declaration::ClassLikeMember;
use crate::ast::expression::{Argument, Expression};
use crate::ast::declaration::FunctionLikeParameter;
use crate::ast::statement::{IfBody, IfColonDelimitedBody, IfStatementBody, Statement};
use crate::interner::Interner;
use crate::linter::config::{
    configured_level, effective_level, has_plugin, LinterConfiguration, LinterRuleConfiguration,
    PhpVersion,
};
use crate::linter::context::{directive_rank, LintContext, LintDirective, Node};
use crate::linter::rules::{reported_one, NoGotoRule, RequireConstantTypeRule, RuleDefinition};
use crate::parser::statement::Program;
use crate::reporting::{Issue, Level};

verus! {

/// The rules the engine can run.
#[derive(Clone, Copy, Debug)]
pub enum BuiltinRule {
    NoGoto(NoGotoRule),
    RequireConstantType(RequireConstantTypeRule),
}

/// A rule that will run, and the level it reports at.
#[derive(Clone, Copy, Debug)]
pub struct ActiveRule {
    pub rule: BuiltinRule,
    pub level: Level,
}

impl BuiltinRule {
    /// The least version the rule applies to, if it has one.
    pub open spec fn minimum_version(self) -> Option<PhpVersion> {
        match self {
            BuiltinRule::NoGoto(_) => None,
            BuiltinRule::RequireConstantType(_) => Some(PhpVersion { major: 8, minor: 3, patch: 0 }),
        }
    }

    pub open spec fn name(self) -> Seq<char> {
        match self {
            BuiltinRule::NoGoto(_) => "No GOTO"@,
            BuiltinRule::RequireConstantType(_) => "Require Constant Type"@,
        }
    }

    pub open spec fn default_level(self) -> Level {
        match self {
            BuiltinRule::NoGoto(_) => Level::Note,
            BuiltinRule::RequireConstantType(_) => Level::Warning,
        }
    }

    pub fn get_definition(&self) -> (r: RuleDefinition)
        ensures
            r.name@ == self.name(),
            r.level == self.default_level(),
            r.minimum_supported_php_version == self.minimum_version(),
    {
        match self {
            BuiltinRule::NoGoto(rule) => rule.get_definition(),
            BuiltinRule::RequireConstantType(rule) => rule.get_definition(),
        }
    }

    /// Hands `node` to the rule; it reports at most one issue, well formed.
    pub fn lint_node(&self, node: Node, context: &mut LintContext) -> (r: LintDirective)
        ensures
            final(context).level == old(context).level,
            final(context).interner == old(context).interner,
            final(context).issues@ == old(context).issues@ || reported_one(
                old(context).issues@,
                final(context).issues@,
            ),
            rule_reports(*self, node) ==> reported_one(old(context).issues@, final(context).issues@),
            !rule_reports(*self, node) ==> final(context).issues@ == old(context).issues@,
            r == rule_directive(*self, node),
    {
        match self {
            BuiltinRule::NoGoto(rule) => rule.lint_node(node, context),
            BuiltinRule::RequireConstantType(rule) => rule.lint_node(node, context),
        }
    }
}

impl BuiltinRule {
    /// The plugin set the rule belongs to.
    pub open spec fn plugin(self) -> Seq<char> {
        match self {
            BuiltinRule::NoGoto(_) => "best-practices"@,
            BuiltinRule::RequireConstantType(_) => "strictness"@,
        }
    }
}

/// The rules that `configuration` registers, in order: `No GOTO` with the
/// `best-practices` set, `Require Constant Type` with the `strictness` set.
pub fn registered_rules(configuration: &LinterConfiguration) -> (r: Vec<BuiltinRule>)
    ensures
        forall|i: int| 0 <= i < r.len() ==> configuration.enables((#[trigger] r@[i]).plugin()),
        configuration.enables("best-practices"@) <==> exists|i: int| 0 <= i < r.len() && (#[trigger] r@[i]) is NoGoto,
        configuration.enables("strictness"@) <==> exists|i: int| 0 <= i < r.len() && (#[trigger] r@[i]) is RequireConstantType,
{
    let all = match configuration.default_plugins {
        Some(enabled) => enabled,
        None => true,
    };
    let mut rules: Vec<BuiltinRule> = Vec::new();
    let best_practices = String::from_str("best-practices");
    let strictness = String::from_str("strictness");
    if all || has_plugin(&configuration.plugins, &best_practices) {
        rules.push(BuiltinRule::NoGoto(NoGotoRule));
    }
    let ghost first = rules@;
    if all || has_plugin(&configuration.plugins, &strictness) {
        rules.push(BuiltinRule::RequireConstantType(RequireConstantTypeRule));
    }
    proof {
        if !configuration.enables("best-practices"@) {
            assert(first.len() == 0);
            assert forall|i: int| 0 <= i < rules.len() implies !(#[trigger] rules@[i] is NoGoto) by {
                assert(rules@[i] is RequireConstantType);
            }
        } else {
            assert(rules@[0] is NoGoto);
        }
        if configuration.enables("strictness"@) {
            assert(rules@[rules.len() - 1] is RequireConstantType);
        } else {
            assert(rules@ == first);
        }
    }
    rules
}

/// Whether `rule` reports an issue on `node`.
pub open spec fn rule_reports(rule: BuiltinRule, node: Node) -> bool {
    match rule {
        BuiltinRule::NoGoto(_) => node is Goto || node is Label,
        BuiltinRule::RequireConstantType(_) => node matches Node::ClassLikeConstant(c) && c.hint is None
            && c.items.nodes.len() > 0,
    }
}

/// The directive `rule` returns on `node`.
pub open spec fn rule_directive(rule: BuiltinRule, node: Node) -> LintDirective {
    match rule {
        BuiltinRule::NoGoto(_) => if node is Goto || node is Label {
            LintDirective::Prune
        } else {
            LintDirective::Continue
        },
        BuiltinRule::RequireConstantType(_) => if node is ClassLikeConstant {
            LintDirective::Prune
        } else {
            LintDirective::Continue
        },
    }
}

/// How many of `rules` report an issue on `node`.
pub open spec fn reports_count(rules: Seq<ActiveRule>, node: Node) -> nat
    decreases rules.len(),
{
    if rules.len() == 0 {
        0
    } else {
        reports_count(rules.drop_last(), node) + if rule_reports(rules.last().rule, node) {
            1nat
        } else {
            0nat
        }
    }
}

/// The strongest of the directives that `rules` return on `node`, `Continue` for none.
pub open spec fn strongest_of(rules: Seq<ActiveRule>, node: Node) -> LintDirective
    decreases rules.len(),
{
    if rules.len() == 0 {
        LintDirective::Continue
    } else {
        let a = strongest_of(rules.drop_last(), node);
        let b = rule_directive(rules.last().rule, node);
        if directive_rank(a) >= directive_rank(b) {
            a
        } else {
            b
        }
    }
}

/// `rule` runs for `target` under `config`: its minimum version, if any, is
/// not above the target, and its level is not `Off`.
pub open spec fn runs(rule: BuiltinRule, config: Seq<LinterRuleConfiguration>, target: PhpVersion) -> bool {
    &&& rule.minimum_version() matches Some(m) ==> m.number() <= target.number()
    &&& configured_level(rule.name(), rule.default_level(), config) != Level::Off
}

/// The rules of `rules` that run for `target` under `config`, in order, each with its level.
pub open spec fn active_of(rules: Seq<BuiltinRule>, config: Seq<LinterRuleConfiguration>, target: PhpVersion) -> Seq<ActiveRule>
    decreases rules.len(),
{
    if rules.len() == 0 {
        Seq::empty()
    } else {
        let rest = active_of(rules.drop_last(), config, target);
        let rule = rules.last();
        if runs(rule, config, target) {
            rest.push(ActiveRule { rule, level: configured_level(rule.name(), rule.default_level(), config) })
        } else {
            rest
        }
    }
}

/// Selects the rules that run: a rule whose minimum version is above the
/// target, or whose level is `Off`, is left out.
pub fn active_rules(rules: &Vec<BuiltinRule>, config: &Vec<LinterRuleConfiguration>, target: PhpVersion) -> (r: Vec<ActiveRule>)
    ensures
        r@ == active_of(rules@, config@, target),
        forall|i: int| 0 <= i < r.len() ==> runs(#[trigger] r@[i].rule, config@, target),
        forall|i: int| 0 <= i < r.len() ==> (#[trigger] r@[i]).level != Level::Off,
{
    let mut active: Vec<ActiveRule> = Vec::new();
    let mut i: usize = 0;
    while i < rules.len()
        invariant
            i <= rules.len(),
            active@ == active_of(rules@.subrange(0, i as int), config@, target),
            forall|k: int| 0 <= k < active.len() ==> runs(#[trigger] active@[k].rule, config@, target),
            forall|k: int| 0 <= k < active.len() ==> (#[trigger] active@[k]).level != Level::Off,
        decreases rules.len() - i,
    {
        let rule = rules[i];
        let definition = rule.get_definition();
        let level = effective_level(&definition.name, definition.level, config);
        let in_version = match definition.minimum_supported_php_version {
            Some(minimum) => target.is_at_least(minimum),
            None => true,
        };
        proof {
            assert(rules@.subrange(0, i + 1).drop_last() =~= rules@.subrange(0, i as int));
            assert(rules@.subrange(0, i + 1).last() == rule);
        }
        if in_version && level != Level::Off {
            active.push(ActiveRule { rule, level });
        }
        i = i + 1;
    }
    proof {
        assert(rules@.subrange(0, rules.len() as int) =~= rules@);
    }
    active
}

/// No rule runs whose minimum version is above the target: every active
/// rule applies to the target version and has a level other than `Off`.
pub proof fn lemma_rule_gating(rules: Seq<BuiltinRule>, config: Seq<LinterRuleConfiguration>, target: PhpVersion)
    ensures
        forall|k: int| 0 <= k < active_of(rules, config, target).len() ==> ((#[trigger] active_of(rules, config, target)[k]).rule.minimum_version() matches Some(m) ==> m.number() <= target.number()),
        forall|k: int| 0 <= k < active_of(rules, config, target).len() ==> (#[trigger] active_of(rules, config, target)[k]).level != Level::Off,
        forall|k: int| 0 <= k < active_of(rules, config, target).len() ==> runs((#[trigger] active_of(rules, config, target)[k]).rule, config, target),
    decreases rules.len(),
{
    if rules.len() > 0 {
        lemma_rule_gating(rules.drop_last(), config, target);
    }
}

/// Every issue is well formed.
pub open spec fn all_well_formed(issues: Seq<Issue>) -> bool {
    forall|i: int| 0 <= i < issues.len() ==> (#[trigger] issues[i]).well_formed()
}

/// The issues after a step keep those before it, and are all well formed.
pub open spec fn extends(before: Seq<Issue>, after: Seq<Issue>) -> bool {
    &&& before.len() <= after.len()
    &&& after.subrange(0, before.len() as int) == before
    &&& all_well_formed(before) ==> all_well_formed(after)
}

/// Hands `node` to each rule in order, at the rule's level; the strongest
/// directive wins.
pub fn visit(node: Node, rules: &Vec<ActiveRule>, context: &mut LintContext) -> (r: LintDirective)
    ensures
        final(context).interner == old(context).interner,
        extends(old(context).issues@, final(context).issues@),
        final(context).issues@.len() == old(context).issues@.len() + reports_count(rules@, node),
        r == strongest_of(rules@, node),
{
    let mut directive = LintDirective::Continue;
    let mut i: usize = 0;
    let ghost start = context.issues@;
    let ghost interner = context.interner;
    proof {
        lemma_extends_refl(start);
    }
    while i < rules.len()
        invariant
            i <= rules.len(),
            start == old(context).issues@,
            interner == old(context).interner,
            context.interner == interner,
            extends(start, context.issues@),
            context.issues@.len() == start.len() + reports_count(rules@.subrange(0, i as int), node),
            directive == strongest_of(rules@.subrange(0, i as int), node),
        decreases rules.len() - i,
    {
        let ghost before = context.issues@;
        proof {
            assert(rules@.subrange(0, i + 1).drop_last() =~= rules@.subrange(0, i as int));
            assert(rules@.subrange(0, i + 1).last() == rules@[i as int]);
        }
        context.level = rules[i].level;
        let d = rules[i].rule.lint_node(node, context);
        proof {
            if context.issues@ != before {
                assert(context.issues@.subrange(0, before.len() as int) == before);
                assert(context.issues@.subrange(0, start.len() as int) =~= before.subrange(0, start.len() as int));
                if all_well_formed(start) {
                    assert forall|k: int| 0 <= k < context.issues@.len() implies (#[trigger] context.issues@[k]).well_formed() by {
                        if k < before.len() {
                            assert(context.issues@[k] == context.issues@.subrange(0, before.len() as int)[k]);
                        }
                    }
                }
            }
        }
        directive = directive.strongest(d);
        i = i + 1;
    }
    proof {
        assert(rules@.subrange(0, rules.len() as int) =~= rules@);
    }
    directive
}

/// Walks one statement in pre-order; `true` when a rule aborted the walk.
pub fn walk_statement(statement: &Statement, rules: &Vec<ActiveRule>, context: &mut LintContext) -> (aborted: bool)
    ensures
        final(context).interner == old(context).interner,
        extends(old(context).issues@, final(context).issues@),
    decreases statement,
{
    let ghost start = context.issues@;
    let directive = visit(Node::Statement(statement), rules, context);
    proof {
        lemma_extends_refl(start);
    }
    match directive {
        LintDirective::Abort => {
            return true;
        },
        LintDirective::Prune => {
            return false;
        },
        LintDirective::Continue => {},
    }
    let ghost mid = context.issues@;
    let aborted = match statement {
        Statement::Goto(goto) => visit(Node::Goto(goto), rules, context) == LintDirective::Abort,
        Statement::Label(label) => visit(Node::Label(label), rules, context) == LintDirective::Abort,
        Statement::Expression(e) => walk_expression(&e.expression, rules, context),
        Statement::Echo(e) => walk_expressions(&e.values.nodes, rules, context),
        Statement::If(i) => {
            if walk_expression(&i.condition, rules, context) {
                true
            } else {
                let ghost after_condition = context.issues@;
                let aborted = match &i.body {
                    IfBody::Statement(b) => walk_statement_body(b, rules, context),
                    IfBody::ColonDelimited(b) => walk_colon_body(b, rules, context),
                };
                proof {
                    lemma_extends_trans(mid, after_condition, context.issues@);
                }
                aborted
            }
        },
        Statement::Block(b) => walk_statements(&b.statements.nodes, rules, context),
        Statement::Function(f) => {
            if walk_parameters(&f.parameter_list.parameters.nodes, rules, context) {
                true
            } else {
                let ghost after_parameters = context.issues@;
                let aborted = walk_statements(&f.body.statements.nodes, rules, context);
                proof {
                    lemma_extends_trans(mid, after_parameters, context.issues@);
                }
                aborted
            }
        },
        Statement::Class(c) => walk_members(&c.members.nodes, rules, context),
        _ => {
            proof {
                lemma_extends_refl(mid);
            }
            false
        },
    };
    proof {
        lemma_extends_trans(start, mid, context.issues@);
    }
    aborted
}

/// Walks an expression in pre-order, into the arguments of calls; `true`
/// when a rule aborted the walk.
pub fn walk_expression(expression: &Expression, rules: &Vec<ActiveRule>, context: &mut LintContext) -> (aborted: bool)
    ensures
        final(context).interner == old(context).interner,
        extends(old(context).issues@, final(context).issues@),
    decreases expression,
{
    let ghost start = context.issues@;
    let directive = visit(Node::Expression(expression), rules, context);
    match directive {
        LintDirective::Abort => {
            return true;
        },
        LintDirective::Prune => {
            return false;
        },
        LintDirective::Continue => {},
    }
    match expression {
        Expression::Call(call) => {
            let ghost mid = context.issues@;
            let ghost interner = context.interner;
            let arguments = &call.argument_list.arguments.nodes;
            let mut i: usize = 0;
            proof {
                lemma_extends_refl(mid);
            }
            while i < arguments.len()
                invariant
                    i <= arguments.len(),
                    *arguments == call.argument_list.arguments.nodes,
                    *expression == Expression::Call(*call),
                    interner == old(context).interner,
                    context.interner == interner,
                    start == old(context).issues@,
                    extends(start, mid),
                    extends(mid, context.issues@),
                decreases arguments.len() - i,
            {
                let ghost before = context.issues@;
                let argument = &arguments[i];
                let value = argument.value();
                proof {
                    vstd::std_specs::vec::axiom_vec_index_decreases(call.argument_list.arguments.nodes, i as int);
                    assert((*expression)->Call_0 == *call);
                    assert(decreases_to!(*expression => (*expression)->Call_0));
                    assert(decreases_to!(*call => call.argument_list));
                    assert(decreases_to!(call.argument_list => call.argument_list.arguments));
                    assert(decreases_to!(call.argument_list.arguments => call.argument_list.arguments.nodes));
                    assert(decreases_to!(*argument => *value));
                    assert(decreases_to!(*expression => *value));
                }
                let aborted = walk_expression(value, rules, context);
                proof {
                    lemma_extends_trans(mid, before, context.issues@);
                }
                if aborted {
                    proof {
                        lemma_extends_trans(start, mid, context.issues@);
                    }
                    return true;
                }
                i = i + 1;
            }
            proof {
                lemma_extends_trans(start, mid, context.issues@);
            }
            false
        },
        _ => false,
    }
}

/// Walks expressions in order; `true` when a rule aborted the walk.
pub fn walk_expressions(expressions: &Vec<Expression>, rules: &Vec<ActiveRule>, context: &mut LintContext) -> (aborted: bool)
    ensures
        final(context).interner == old(context).interner,
        extends(old(context).issues@, final(context).issues@),
{
    let ghost start = context.issues@;
    let ghost interner = context.interner;
    let mut i: usize = 0;
    proof {
        lemma_extends_refl(start);
    }
    while i < expressions.len()
        invariant
            i <= expressions.len(),
            start == old(context).issues@,
            interner == old(context).interner,
            context.interner == interner,
            extends(start, context.issues@),
        decreases expressions.len() - i,
    {
        let ghost before = context.issues@;
        let aborted = walk_expression(&expressions[i], rules, context);
        proof {
            lemma_extends_trans(start, before, context.issues@);
        }
        if aborted {
            return true;
        }
        i = i + 1;
    }
    false
}

/// Walks the body of a statement-form `if`: its statement, then each
/// `elseif` condition and statement, then the `else` statement.
pub fn walk_statement_body(body: &IfStatementBody, rules: &Vec<ActiveRule>, context: &mut LintContext) -> (aborted: bool)
    ensures
        final(context).interner == old(context).interner,
        extends(old(context).issues@, final(context).issues@),
    decreases body,
{
    let ghost start = context.issues@;
    if walk_statement(&body.statement, rules, context) {
        return true;
    }
    let ghost interner = context.interner;
    let clauses = &body.else_if_clauses.nodes;
    let mut i: usize = 0;
    while i < clauses.len()
        invariant
            i <= clauses.len(),
            *clauses == body.else_if_clauses.nodes,
            interner == old(context).interner,
            context.interner == interner,
            start == old(context).issues@,
            extends(start, context.issues@),
        decreases clauses.len() - i,
    {
        let ghost before = context.issues@;
        proof {
            vstd::std_specs::vec::axiom_vec_index_decreases(body.else_if_clauses.nodes, i as int);
            assert(decreases_to!(*body => body.else_if_clauses));
            assert(decreases_to!(body.else_if_clauses => body.else_if_clauses.nodes));
        }
        let clause = &clauses[i];
        if walk_expression(&clause.condition, rules, context) {
            proof {
                lemma_extends_trans(start, before, context.issues@);
            }
            return true;
        }
        let ghost mid = context.issues@;
        let aborted = walk_statement(&clause.statement, rules, context);
        proof {
            lemma_extends_trans(before, mid, context.issues@);
            lemma_extends_trans(start, before, context.issues@);
        }
        if aborted {
            return true;
        }
        i = i + 1;
    }
    match &body.else_clause {
        Some(e) => {
            let ghost before = context.issues@;
            let aborted = walk_statement(&e.statement, rules, context);
            proof {
                lemma_extends_trans(start, before, context.issues@);
            }
            aborted
        },
        None => false,
    }
}

/// Walks a colon-delimited `if` body: its statements, then each `elseif`
/// condition and statements, then the `else` statements.
pub fn walk_colon_body(body: &IfColonDelimitedBody, rules: &Vec<ActiveRule>, context: &mut LintContext) -> (aborted: bool)
    ensures
        final(context).interner == old(context).interner,
        extends(old(context).issues@, final(context).issues@),
    decreases body,
{
    let ghost start = context.issues@;
    if walk_statements(&body.statements.nodes, rules, context) {
        return true;
    }
    let ghost interner = context.interner;
    let clauses = &body.else_if_clauses.nodes;
    let mut i: usize = 0;
    while i < clauses.len()
        invariant
            i <= clauses.len(),
            *clauses == body.else_if_clauses.nodes,
            interner == old(context).interner,
            context.interner == interner,
            start == old(context).issues@,
            extends(start, context.issues@),
        decreases clauses.len() - i,
    {
        let ghost before = context.issues@;
        proof {
            vstd::std_specs::vec::axiom_vec_index_decreases(body.else_if_clauses.nodes, i as int);
            assert(decreases_to!(*body => body.else_if_clauses));
            assert(decreases_to!(body.else_if_clauses => body.else_if_clauses.nodes));
        }
        let clause = &clauses[i];
        if walk_expression(&clause.condition, rules, context) {
            proof {
                lemma_extends_trans(start, before, context.issues@);
            }
            return true;
        }
        let ghost mid = context.issues@;
        let aborted = walk_statements(&clause.statements.nodes, rules, context);
        proof {
            lemma_extends_trans(before, mid, context.issues@);
            lemma_extends_trans(start, before, context.issues@);
        }
        if aborted {
            return true;
        }
        i = i + 1;
    }
    match &body.else_clause {
        Some(e) => {
            let ghost before = context.issues@;
            let aborted = walk_statements(&e.statements.nodes, rules, context);
            proof {
                lemma_extends_trans(start, before, context.issues@);
            }
            aborted
        },
        None => false,
    }
}

/// Walks parameters in order: each parameter node, then its default value.
pub fn walk_parameters(parameters: &Vec<FunctionLikeParameter>, rules: &Vec<ActiveRule>, context: &mut LintContext) -> (aborted: bool)
    ensures
        final(context).interner == old(context).interner,
        extends(old(context).issues@, final(context).issues@),
{
    let ghost start = context.issues@;
    let ghost interner = context.interner;
    let mut i: usize = 0;
    proof {
        lemma_extends_refl(start);
    }
    while i < parameters.len()
        invariant
            i <= parameters.len(),
            start == old(context).issues@,
            interner == old(context).interner,
            context.interner == interner,
            extends(start, context.issues@),
        decreases parameters.len() - i,
    {
        let ghost before = context.issues@;
        let parameter = &parameters[i];
        let directive = visit(Node::FunctionLikeParameter(parameter), rules, context);
        proof {
            lemma_extends_trans(start, before, context.issues@);
        }
        if directive == LintDirective::Abort {
            return true;
        }
        if directive == LintDirective::Continue {
            if let Some(default_value) = &parameter.default_value {
                let ghost mid = context.issues@;
                let aborted = walk_expression(&default_value.value, rules, context);
                proof {
                    lemma_extends_trans(start, mid, context.issues@);
                }
                if aborted {
                    return true;
                }
            }
        }
        i = i + 1;
    }
    false
}

/// Walks statements in order; `true` when a rule aborted the walk.
pub fn walk_statements(statements: &Vec<Statement>, rules: &Vec<ActiveRule>, context: &mut LintContext) -> (aborted: bool)
    ensures
        final(context).interner == old(context).interner,
        extends(old(context).issues@, final(context).issues@),
    decreases statements,
{
    let ghost start = context.issues@;
    let ghost interner = context.interner;
    let mut i: usize = 0;
    proof {
        lemma_extends_refl(start);
    }
    while i < statements.len()
        invariant
            i <= statements.len(),
            start == old(context).issues@,
            interner == old(context).interner,
            context.interner == interner,
            extends(start, context.issues@),
        decreases statements.len() - i,
    {
        let ghost before = context.issues@;
        let aborted = walk_statement(&statements[i], rules, context);
        proof {
            lemma_extends_trans(start, before, context.issues@);
        }
        if aborted {
            return true;
        }
        i = i + 1;
    }
    false
}

/// Walks the members of a class; `true` when a rule aborted the walk.
pub fn walk_members(members: &Vec<ClassLikeMember>, rules: &Vec<ActiveRule>, context: &mut LintContext) -> (aborted: bool)
    ensures
        final(context).interner == old(context).interner,
        extends(old(context).issues@, final(context).issues@),
{
    let ghost start = context.issues@;
    let ghost interner = context.interner;
    let mut i: usize = 0;
    proof {
        lemma_extends_refl(start);
    }
    while i < members.len()
        invariant
            i <= members.len(),
            start == old(context).issues@,
            interner == old(context).interner,
            context.interner == interner,
            extends(start, context.issues@),
        decreases members.len() - i,
    {
        let ghost before = context.issues@;
        let ClassLikeMember::Constant(constant) = &members[i];
        let directive = visit(Node::ClassLikeConstant(constant), rules, context);
        proof {
            lemma_extends_trans(start, before, context.issues@);
        }
        if directive == LintDirective::Abort {
            return true;
        }
        if directive == LintDirective::Continue {
            let mut k: usize = 0;
            while k < constant.items.nodes.len()
                invariant
                    k <= constant.items.nodes.len(),
                    start == old(context).issues@,
                    interner == old(context).interner,
                    context.interner == interner,
                    extends(start, context.issues@),
                decreases constant.items.nodes.len() - k,
            {
                let ghost b2 = context.issues@;
                let aborted = walk_expression(&constant.items.nodes[k].value, rules, context);
                proof {
                    lemma_extends_trans(start, b2, context.issues@);
                }
                if aborted {
                    return true;
                }
                k = k + 1;
            }
        }
        i = i + 1;
    }
    false
}

/// No step keeps all issues.
pub proof fn lemma_extends_refl(a: Seq<Issue>)
    ensures
        extends(a, a),
{
    assert(a.subrange(0, a.len() as int) =~= a);
}

/// Steps that each keep the earlier issues make one such step.
pub proof fn lemma_extends_trans(a: Seq<Issue>, b: Seq<Issue>, c: Seq<Issue>)
    requires
        extends(a, b),
        extends(b, c),
    ensures
        extends(a, c),
{
    assert(c.subrange(0, a.len() as int) =~= c.subrange(0, b.len() as int).subrange(0, a.len() as int));
}

/// Lints a program: walks it in pre-order, handing each node to each active
/// rule in order. Every issue reported is well formed.
pub fn lint_program(program: &Program, rules: &Vec<ActiveRule>, interner: &Interner) -> (issues: Vec<Issue>)
    ensures
        all_well_formed(issues@),
{
    let mut context = LintContext::new(Level::Note, interner);
    let directive = visit(Node::Program(program), rules, &mut context);
    if directive == LintDirective::Continue {
        let ghost before = context.issues@;
        let _ = walk_statements(&program.statements.nodes, rules, &mut context);
    }
    context.issues
}

} // verus!
