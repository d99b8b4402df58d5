use vstd::prelude::*;

use crate::ast::declaration::{ClassLikeConstant, FunctionLikeParameter};
use crate::ast::expression::Expression;
use crate::ast::statement::{Goto, Label, Statement};
use crate::interner::Interner;
use crate::parser::statement::Program;
use crate::reporting::{Issue, Level};
use crate::token::SymbolId;

verus! {

/// A node of the tree as the rules see it.
#[derive(Clone, Copy, Debug)]
pub enum Node<'a> {
    Program(&'a Program),
    Statement(&'a Statement),
    Goto(&'a Goto),
    Label(&'a Label),
    ClassLikeConstant(&'a ClassLikeConstant),
    FunctionLikeParameter(&'a FunctionLikeParameter),
    Expression(&'a Expression),
}

/// What the engine does after the rules have seen a node.
#[derive(Clone, Copy, Debug, PartialEq, Eq, Structural)]
pub enum LintDirective {
    /// Walk into the node's children.
    Continue,
    /// Skip the node's children.
    Prune,
    /// Stop the walk; issues already reported are kept.
    Abort,
}

pub open spec fn directive_rank(d: LintDirective) -> int {
    match d {
        LintDirective::Continue => 0,
        LintDirective::Prune => 1,
        LintDirective::Abort => 2,
    }
}

impl LintDirective {
    pub fn default() -> (r: LintDirective)
        ensures
            r == LintDirective::Continue,
    {
        LintDirective::Continue
    }

    /// The stronger of two directives: `Abort` over `Prune` over `Continue`.
    pub fn strongest(self, other: LintDirective) -> (r: LintDirective)
        ensures
            directive_rank(r) == if directive_rank(self) >= directive_rank(other) {
                directive_rank(self)
            } else {
                directive_rank(other)
            },
            r == self || r == other,
    {
        match (self, other) {
            (LintDirective::Abort, _) | (_, LintDirective::Abort) => LintDirective::Abort,
            (LintDirective::Prune, _) | (_, LintDirective::Prune) => LintDirective::Prune,
            _ => LintDirective::Continue,
        }
    }
}

/// What a rule sees while it lints: its level, the interner, and where issues go.
pub struct LintContext<'a> {
    pub level: Level,
    pub interner: &'a Interner,
    pub issues: Vec<Issue>,
}

impl<'a> LintContext<'a> {
    pub fn new(level: Level, interner: &'a Interner) -> (r: LintContext<'a>)
        ensures
            r.level == level,
            r.interner == interner,
            r.issues@.len() == 0,
    {
        LintContext { level, interner, issues: Vec::new() }
    }

    /// The level the current rule reports at.
    pub fn level(&self) -> (r: Level)
        ensures
            r == self.level,
    {
        self.level
    }

    /// The text of `id`, or the empty string for an id the interner does not hold.
    pub fn lookup(&self, id: SymbolId) -> (r: &str)
        ensures
            self.interner.holds(id) ==> r@ == self.interner@[id.index as int],
            !self.interner.holds(id) ==> r@.len() == 0,
    {
        self.interner.resolve(id)
    }

    /// Adds an issue to those reported.
    pub fn report(&mut self, issue: Issue)
        ensures
            final(self).issues@ == old(self).issues@.push(issue),
            final(self).level == old(self).level,
            final(self).interner == old(self).interner,
    {
        self.issues.push(issue);
    }
}

} // verus!
