use mago_core::interner::Interner;
use mago_core::lexer::tokenize;
use mago_core::linter::config::{
    effective_level, LinterConfiguration, LinterLevel, LinterRuleConfiguration, PhpVersion,
};
use mago_core::linter::context::LintDirective;
use mago_core::linter::engine::{active_rules, lint_program, registered_rules, ActiveRule, BuiltinRule};
use mago_core::linter::rules::{NoGotoRule, RequireConstantTypeRule};
use mago_core::parser::statement::parse_program;
use mago_core::reporting::{AnnotationKind, Issue, Level};
use mago_core::span::Span;

fn all_rules() -> Vec<BuiltinRule> {
    vec![BuiltinRule::NoGoto(NoGotoRule), BuiltinRule::RequireConstantType(RequireConstantTypeRule)]
}

fn lint(source: &str, target: PhpVersion, config: &Vec<LinterRuleConfiguration>) -> Vec<Issue> {
    let mut interner = Interner::new();
    let mut stream = tokenize(source, &mut interner).expect("lexes");
    let program = parse_program(&mut stream).expect("parses");
    let rules: Vec<ActiveRule> = active_rules(&all_rules(), config, target);
    lint_program(&program, &rules, &interner)
}

fn php83() -> PhpVersion {
    PhpVersion::new(8, 3, 0)
}

#[test]
fn goto_and_label_are_flagged() {
    let issues = lint("<?php goto end; end: ;", php83(), &vec![]);
    assert_eq!(issues.len(), 2);

    let goto = &issues[0];
    assert_eq!(goto.message, "Avoid using `goto`.");
    assert_eq!(goto.level, Level::Note);
    assert_eq!(goto.annotations.len(), 2);
    assert_eq!(goto.annotations[0].kind, AnnotationKind::Primary);
    assert_eq!(goto.annotations[0].span, Span::new(6, 10));
    assert_eq!(goto.annotations[0].message.as_deref(), Some("This `goto` statement is used here."));
    assert_eq!(goto.annotations[1].kind, AnnotationKind::Secondary);
    assert_eq!(goto.annotations[1].span, Span::new(11, 14));
    assert_eq!(goto.notes.len(), 3);
    assert_eq!(goto.help.as_deref(), Some("Refactor your code to avoid using `goto`."));

    let label = &issues[1];
    assert_eq!(label.message, "Avoid using labels");
    assert_eq!(label.annotations.len(), 1);
    assert_eq!(label.annotations[0].kind, AnnotationKind::Primary);
    assert_eq!(label.annotations[0].span, Span::new(16, 20));
    assert_eq!(label.annotations[0].message.as_deref(), Some("Label `end` is declared here."));
    assert_eq!(label.notes.len(), 2);
}

#[test]
fn untyped_class_constant_is_flagged_from_the_minimum_version() {
    let source = "<?php class C { const X = 1; }";
    let issues = lint(source, php83(), &vec![]);
    assert_eq!(issues.len(), 1);
    let issue = &issues[0];
    assert_eq!(issue.level, Level::Warning);
    assert_eq!(issue.message, "Class constant `X` is missing a type hint.");
    assert_eq!(issue.annotations[0].kind, AnnotationKind::Primary);
    let span = issue.annotations[0].span;
    assert_eq!(span.start, 16);
    assert!(span.end >= 27);
    assert_eq!(issue.help.as_deref(), Some("Consider specifying a type hint for `X`."));

    let issues = lint(source, PhpVersion::new(8, 2, 9), &vec![]);
    assert!(issues.is_empty());
}

#[test]
fn typed_class_constant_is_not_flagged() {
    let issues = lint("<?php class C { public const int X = 1; }", PhpVersion::new(8, 4, 0), &vec![]);
    assert!(issues.is_empty());
}

#[test]
fn rules_below_their_minimum_version_do_not_run() {
    let rules = active_rules(&all_rules(), &vec![], PhpVersion::new(8, 2, 0));
    assert_eq!(rules.len(), 1);
    assert!(matches!(rules[0].rule, BuiltinRule::NoGoto(_)));
    let rules = active_rules(&all_rules(), &vec![], PhpVersion::new(9, 0, 0));
    assert_eq!(rules.len(), 2);
}

#[test]
fn configured_level_overrides_default_and_off_disables() {
    let config = vec![LinterRuleConfiguration { name: "No GOTO".to_string(), level: Some(LinterLevel::Error) }];
    let issues = lint("<?php goto a;", php83(), &config);
    assert_eq!(issues.len(), 1);
    assert_eq!(issues[0].level, Level::Error);

    let config = vec![LinterRuleConfiguration { name: "No GOTO".to_string(), level: Some(LinterLevel::Off) }];
    let issues = lint("<?php goto a;", php83(), &config);
    assert!(issues.is_empty());

    let config = vec![
        LinterRuleConfiguration { name: "Other".to_string(), level: Some(LinterLevel::Help) },
        LinterRuleConfiguration { name: "No GOTO".to_string(), level: None },
        LinterRuleConfiguration { name: "No GOTO".to_string(), level: Some(LinterLevel::Warning) },
        LinterRuleConfiguration { name: "No GOTO".to_string(), level: Some(LinterLevel::Help) },
    ];
    assert_eq!(effective_level(&"No GOTO".to_string(), Level::Note, &config), Level::Warning);
    assert_eq!(effective_level(&"Unknown".to_string(), Level::Note, &config), Level::Note);
}

#[test]
fn every_issue_is_well_formed() {
    let source = "<?php goto a; a: ; class K { const A = 1, B = 2; private const C = 3; } if ($x) { goto a; }";
    let issues = lint(source, php83(), &vec![]);
    assert_eq!(issues.len(), 5);
    for issue in &issues {
        assert!(issue.is_well_formed());
        assert!(!issue.message.is_empty());
    }
    assert_eq!(issues[2].message, "Class constant `A` is missing a type hint.");
    assert_eq!(issues[3].message, "Class constant `C` is missing a type hint.");
}

#[test]
fn diagnostics_follow_pre_order() {
    let issues = lint("<?php if ($x) { goto b; } b: ;", php83(), &vec![]);
    assert_eq!(issues.len(), 2);
    assert_eq!(issues[0].message, "Avoid using `goto`.");
    assert_eq!(issues[1].message, "Avoid using labels");
}

#[test]
fn strongest_directive_wins() {
    assert_eq!(LintDirective::Continue.strongest(LintDirective::Prune), LintDirective::Prune);
    assert_eq!(LintDirective::Prune.strongest(LintDirective::Abort), LintDirective::Abort);
    assert_eq!(LintDirective::Continue.strongest(LintDirective::Continue), LintDirective::Continue);
    assert_eq!(LintDirective::default(), LintDirective::Continue);
}

#[test]
fn rule_definitions() {
    let d = BuiltinRule::NoGoto(NoGotoRule).get_definition();
    assert_eq!(d.name, "No GOTO");
    assert_eq!(d.level, Level::Note);
    assert!(d.minimum_supported_php_version.is_none());
    let d = BuiltinRule::RequireConstantType(RequireConstantTypeRule).get_definition();
    assert_eq!(d.name, "Require Constant Type");
    assert_eq!(d.level, Level::Warning);
    assert_eq!(d.minimum_supported_php_version, Some(PhpVersion::new(8, 3, 0)));
    assert_eq!(d.examples.len(), 2);
    assert!(d.examples[0].valid && !d.examples[1].valid);
}

#[test]
fn versions_and_levels() {
    assert!(PhpVersion::new(8, 3, 0).is_at_least(PhpVersion::new(8, 3, 0)));
    assert!(PhpVersion::new(9, 0, 0).is_at_least(PhpVersion::new(8, 3, 0)));
    assert!(!PhpVersion::new(8, 2, 99).is_at_least(PhpVersion::new(8, 3, 0)));
    assert_eq!(LinterLevel::Warning.to_level(), Level::Warning);
    assert_eq!(LinterLevel::Off.to_level(), Level::Off);
}

#[test]
fn plugins_select_the_registered_rules() {
    let all = LinterConfiguration::new();
    assert_eq!(registered_rules(&all).len(), 2);

    let none = LinterConfiguration { default_plugins: Some(false), plugins: vec![], rules: vec![] };
    assert!(registered_rules(&none).is_empty());

    let strict = LinterConfiguration {
        default_plugins: Some(false),
        plugins: vec!["strictness".to_string()],
        rules: vec![],
    };
    let rules = registered_rules(&strict);
    assert_eq!(rules.len(), 1);
    assert!(matches!(rules[0], BuiltinRule::RequireConstantType(_)));
}

#[test]
fn the_walk_reaches_every_branch_and_parameter() {
    let issues = lint("<?php if ($x) {} elseif ($y) { goto a; } else { goto b; }", php83(), &vec![]);
    assert_eq!(issues.len(), 2);
    let issues = lint("<?php if ($x): elseif ($y): goto a; else: goto b; endif;", php83(), &vec![]);
    assert_eq!(issues.len(), 2);
    let issues = lint("<?php function f($a = g()) { goto x; }", php83(), &vec![]);
    assert_eq!(issues.len(), 1);
}
