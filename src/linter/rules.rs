use vstd::prelude::*;
use vstd::string::*;

use crate::ast::node::outer_span;
use crate::linter::config::PhpVersion;
use crate::linter::context::{LintContext, LintDirective, Node};
use crate::reporting::{Annotation, AnnotationKind, Issue, Level};

verus! {

/// A snippet that shows a rule's behaviour: code it accepts or code it flags.
#[derive(Clone, Debug, PartialEq, Eq)]
pub struct RuleUsageExample {
    pub valid: bool,
    pub description: String,
    pub snippet: String,
}

/// What a rule is: its name, default level, the least language version it
/// applies to, a description and examples.
#[derive(Clone, Debug, PartialEq, Eq)]
pub struct RuleDefinition {
    pub name: String,
    pub level: Level,
    pub minimum_supported_php_version: Option<PhpVersion>,
    pub description: String,
    pub examples: Vec<RuleUsageExample>,
}

/// A new issue stands at the end of `issues`, the earlier ones unchanged.
pub open spec fn reported_one(before: Seq<Issue>, after: Seq<Issue>) -> bool {
    &&& after.len() == before.len() + 1
    &&& after.subrange(0, before.len() as int) == before
    &&& after.last().well_formed()
}

/// Flags `goto` statements and labels.
#[derive(Clone, Copy, Debug)]
pub struct NoGotoRule;

impl NoGotoRule {
    pub fn get_definition(&self) -> (r: RuleDefinition)
        ensures
            r.name@ == "No GOTO"@,
            r.level == Level::Note,
            r.minimum_supported_php_version is None,
    {
        RuleDefinition {
            name: String::from_str("No GOTO"),
            level: Level::Note,
            minimum_supported_php_version: None,
            description: String::from_str(
                "Detects the use of `goto` statements in code. The `goto` statement can make code harder to read,
understand, and maintain. It can lead to spaghetti code and make it difficult to follow the flow
of execution.
",
            ),
            examples: Vec::new(),
        }
    }

    /// A `goto` gets an issue at its keyword, pointing also at its label; a
    /// label declaration gets an issue of its own. Both prune the walk.
    pub fn lint_node(&self, node: Node, context: &mut LintContext) -> (r: LintDirective)
        ensures
            final(context).level == old(context).level,
            final(context).interner == old(context).interner,
            node matches Node::Goto(g) ==> r == LintDirective::Prune && reported_one(
                old(context).issues@,
                final(context).issues@,
            ) && final(context).issues@.last().message@ == "Avoid using `goto`."@
                && final(context).issues@.last().level == old(context).level
                && final(context).issues@.last().annotations@.len() == 2
                && final(context).issues@.last().annotations@[0].kind == AnnotationKind::Primary
                && final(context).issues@.last().annotations@[0].span == g.goto.span
                && (final(context).issues@.last().annotations@[0].message matches Some(m)
                && m@ == "This `goto` statement is used here."@)
                && final(context).issues@.last().annotations@[1].kind == AnnotationKind::Secondary
                && final(context).issues@.last().annotations@[1].span == g.label.span
                && final(context).issues@.last().notes@.len() == 3
                && final(context).issues@.last().help is Some,
            node matches Node::Label(l) ==> r == LintDirective::Prune && reported_one(
                old(context).issues@,
                final(context).issues@,
            ) && final(context).issues@.last().message@ == "Avoid using labels"@
                && final(context).issues@.last().level == old(context).level
                && final(context).issues@.last().annotations@.len() == 1
                && final(context).issues@.last().annotations@[0].kind == AnnotationKind::Primary
                && final(context).issues@.last().annotations@[0].span == outer_span(l.child_spans())
                && (final(context).issues@.last().annotations@[0].message matches Some(m)
                && (old(context).interner.holds(l.name.value) ==> m@ == "Label `"@ + old(context).interner@[l.name.value.index as int]
                + "` is declared here."@))
                && final(context).issues@.last().notes@.len() == 2
                && final(context).issues@.last().help is Some,
            !(node is Goto || node is Label) ==> r == LintDirective::Continue && final(context).issues@
                == old(context).issues@,
    {
        match node {
            Node::Goto(goto) => {
                let issue = Issue::new(context.level(), String::from_str("Avoid using `goto`."))
                    .with_annotation(
                        Annotation::primary(goto.goto.span).with_message(
                            String::from_str("This `goto` statement is used here."),
                        ),
                    )
                    .with_annotation(Annotation::secondary(goto.label.span))
                    .with_note(
                        String::from_str(
                            "The `goto` statement can make code harder to read, understand, and maintain.",
                        ),
                    )
                    .with_note(
                        String::from_str(
                            "It can lead to spaghetti code and make it difficult to follow the flow of execution.",
                        ),
                    )
                    .with_note(
                        String::from_str(
                            "Consider using structured control flow statements like `if`, `else`, `for`, and `while` instead.",
                        ),
                    )
                    .with_help(String::from_str("Refactor your code to avoid using `goto`."));
                proof {
                    reveal_strlit("Avoid using `goto`.");
                    assert(issue.annotations@[0].kind == AnnotationKind::Primary);
                }
                let ghost before = context.issues@;
                context.report(issue);
                proof {
                    assert(context.issues@.subrange(0, before.len() as int) =~= before);
                }
                LintDirective::Prune
            },
            Node::Label(label) => {
                let mut message = String::from_str("Label `");
                message.append(context.lookup(label.name.value));
                message.append("` is declared here.");
                let span = crate::span::Span { start: label.name.span.start, end: label.colon.end };
                let issue = Issue::new(context.level(), String::from_str("Avoid using labels"))
                    .with_annotation(Annotation::primary(span).with_message(message))
                    .with_note(
                        String::from_str(
                            "Labels are often used with `goto` statements, which can make code harder to read and maintain.",
                        ),
                    )
                    .with_note(
                        String::from_str(
                            "Consider using structured control flow statements like `if`, `else`, `for`, and `while` instead.",
                        ),
                    )
                    .with_help(String::from_str("Refactor your code to avoid using labels."));
                proof {
                    reveal_strlit("Avoid using labels");
                    assert(issue.annotations@[0].kind == AnnotationKind::Primary);
                }
                let ghost before = context.issues@;
                context.report(issue);
                proof {
                    assert(context.issues@.subrange(0, before.len() as int) =~= before);
                }
                LintDirective::Prune
            },
            _ => LintDirective::default(),
        }
    }
}

/// Flags class constants declared without a type hint, from the language
/// version that allows typed constants on.
#[derive(Clone, Copy, Debug)]
pub struct RequireConstantTypeRule;

/// The version from which class constants can carry a type.
pub fn typed_class_constants_version() -> (r: PhpVersion)
    ensures
        r == (PhpVersion { major: 8, minor: 3, patch: 0 }),
{
    PhpVersion::new(8, 3, 0)
}

impl RequireConstantTypeRule {
    pub fn get_definition(&self) -> (r: RuleDefinition)
        ensures
            r.name@ == "Require Constant Type"@,
            r.level == Level::Warning,
            r.minimum_supported_php_version == Some(PhpVersion { major: 8, minor: 3, patch: 0 }),
    {
        let mut examples = Vec::new();
        examples.push(
            RuleUsageExample {
                valid: true,
                description: String::from_str("A class constant with a type hint"),
                snippet: String::from_str(
                    "<?php

declare(strict_types=1);

namespace Psl\\IO\\Internal;

use Psl\\IO;

class ResourceHandle implements IO\\CloseSeekReadWriteStreamHandleInterface
{
    use IO\\ReadHandleConvenienceMethodsTrait;
    use IO\\WriteHandleConvenienceMethodsTrait;

    public const int DEFAULT_READ_BUFFER_SIZE = 4096;
    public const int MAXIMUM_READ_BUFFER_SIZE = 786432;

    // ...
}
",
                ),
            },
        );
        examples.push(
            RuleUsageExample {
                valid: false,
                description: String::from_str("A class constant without a type hint"),
                snippet: String::from_str(
                    "<?php

declare(strict_types=1);

namespace Psl\\IO\\Internal;

use Psl\\IO;

class ResourceHandle implements IO\\CloseSeekReadWriteStreamHandleInterface
{
    use IO\\ReadHandleConvenienceMethodsTrait;
    use IO\\WriteHandleConvenienceMethodsTrait;

    public const DEFAULT_READ_BUFFER_SIZE = 4096;
    public const MAXIMUM_READ_BUFFER_SIZE = 786432;

    // ...
}
",
                ),
            },
        );
        RuleDefinition {
            name: String::from_str("Require Constant Type"),
            level: Level::Warning,
            minimum_supported_php_version: Some(typed_class_constants_version()),
            description: String::from_str("Detects class constants that are missing a type hint.\n"),
            examples,
        }
    }

    /// A class constant without a type hint gets one issue spanning the whole
    /// declaration, named after its first constant; any class constant prunes.
    pub fn lint_node(&self, node: Node, context: &mut LintContext) -> (r: LintDirective)
        ensures
            final(context).level == old(context).level,
            final(context).interner == old(context).interner,
            node matches Node::ClassLikeConstant(c) ==> r == LintDirective::Prune,
            node matches Node::ClassLikeConstant(c) ==> (c.hint is Some || c.items.nodes.len() == 0
                ==> final(context).issues@ == old(context).issues@),
            node matches Node::ClassLikeConstant(c) ==> (c.hint is None && c.items.nodes.len() > 0 ==> (
            reported_one(old(context).issues@, final(context).issues@) && final(context).issues@.last().level
                == old(context).level && final(context).issues@.last().annotations@.len() == 1
                && final(context).issues@.last().annotations@[0].kind == AnnotationKind::Primary
                && final(context).issues@.last().annotations@[0].span == c.spec_span() && (old(
                context,
            ).interner.holds(c.items.nodes@[0].name.value) ==> final(context).issues@.last().message@
                == "Class constant `"@ + old(context).interner@[c.items.nodes@[0].name.value.index as int]
                + "` is missing a type hint."@))),
            !(node is ClassLikeConstant) ==> r == LintDirective::Continue && final(context).issues@ == old(
                context,
            ).issues@,
    {
        let class_like_constant = match node {
            Node::ClassLikeConstant(c) => c,
            _ => {
                return LintDirective::default();
            },
        };
        if class_like_constant.hint.is_some() {
            return LintDirective::Prune;
        }
        if class_like_constant.items.nodes.len() == 0 {
            return LintDirective::Prune;
        }
        let item = class_like_constant.first_item();
        let constant_name = context.lookup(item.name.value);
        let mut message = String::from_str("Class constant `");
        message.append(constant_name);
        message.append("` is missing a type hint.");
        let mut defined = String::from_str("Class constant `");
        defined.append(constant_name);
        defined.append("` is defined here.");
        let mut help = String::from_str("Consider specifying a type hint for `");
        help.append(constant_name);
        help.append("`.");
        let issue = Issue::new(context.level(), message).with_annotation(
            Annotation::primary(class_like_constant.span()).with_message(defined),
        ).with_note(
            String::from_str(
                "Adding a type hint to constants improves code readability and helps prevent type errors.",
            ),
        ).with_help(help);
        proof {
            reveal_strlit("Class constant `");
            assert(issue.annotations@[0].kind == AnnotationKind::Primary);
        }
        let ghost before = context.issues@;
        context.report(issue);
        proof {
            assert(context.issues@.subrange(0, before.len() as int) =~= before);
        }
        LintDirective::Prune
    }
}

} // verus!
