use vstd::prelude::*;
use vstd::string::*;

use crate::span::Span;

verus! {

/// How severe an issue is. `Off` suppresses it.
#[derive(Clone, Copy, Debug, PartialEq, Eq, Hash, Structural)]
pub enum Level {
    Off,
    Help,
    Note,
    Warning,
    Error,
}

/// The rank of a level in the order `Off < Help < Note < Warning < Error`.
pub open spec fn level_rank(l: Level) -> int {
    match l {
        Level::Off => 0,
        Level::Help => 1,
        Level::Note => 2,
        Level::Warning => 3,
        Level::Error => 4,
    }
}

#[derive(Clone, Copy, Debug, PartialEq, Eq, Hash, Structural)]
pub enum AnnotationKind {
    Primary,
    Secondary,
}

/// A span that an issue points at, with an optional message.
#[derive(Clone, Debug, PartialEq, Eq)]
pub struct Annotation {
    pub message: Option<String>,
    pub kind: AnnotationKind,
    pub span: Span,
}

impl Annotation {
    /// The focal point of an issue.
    pub fn primary(span: Span) -> (r: Annotation)
        ensures
            r.kind == AnnotationKind::Primary,
            r.span == span,
            r.message is None,
    {
        Annotation { message: None, kind: AnnotationKind::Primary, span }
    }

    /// Context for an issue.
    pub fn secondary(span: Span) -> (r: Annotation)
        ensures
            r.kind == AnnotationKind::Secondary,
            r.span == span,
            r.message is None,
    {
        Annotation { message: None, kind: AnnotationKind::Secondary, span }
    }

    pub fn with_message(self, message: String) -> (r: Annotation)
        ensures
            r.kind == self.kind,
            r.span == self.span,
            r.message == Some(message),
    {
        Annotation { message: Some(message), ..self }
    }

    pub fn is_primary(&self) -> (r: bool)
        ensures
            r == (self.kind == AnnotationKind::Primary),
    {
        self.kind == AnnotationKind::Primary
    }
}

/// A finding: its level, headline, annotations, notes and help.
#[derive(Clone, Debug, PartialEq, Eq)]
pub struct Issue {
    pub level: Level,
    pub message: String,
    pub annotations: Vec<Annotation>,
    pub notes: Vec<String>,
    pub help: Option<String>,
}

impl Issue {
    /// An issue can be rendered when it has a primary annotation and a headline.
    pub open spec fn well_formed(&self) -> bool {
        &&& self.message@.len() > 0
        &&& exists|i: int| 0 <= i < self.annotations.len() && (#[trigger] self.annotations@[i]).kind
            == AnnotationKind::Primary
    }

    pub fn new(level: Level, message: String) -> (r: Issue)
        ensures
            r.level == level,
            r.message == message,
            r.annotations@.len() == 0,
            r.notes@.len() == 0,
            r.help is None,
    {
        Issue { level, message, annotations: Vec::new(), notes: Vec::new(), help: None }
    }

    pub fn with_annotation(self, annotation: Annotation) -> (r: Issue)
        ensures
            r.level == self.level,
            r.message == self.message,
            r.annotations@ == self.annotations@.push(annotation),
            r.notes@ == self.notes@,
            r.help == self.help,
    {
        let mut r = self;
        r.annotations.push(annotation);
        r
    }

    pub fn with_note(self, note: String) -> (r: Issue)
        ensures
            r.level == self.level,
            r.message == self.message,
            r.annotations@ == self.annotations@,
            r.notes@ == self.notes@.push(note),
            r.help == self.help,
    {
        let mut r = self;
        r.notes.push(note);
        r
    }

    pub fn with_help(self, help: String) -> (r: Issue)
        ensures
            r.level == self.level,
            r.message == self.message,
            r.annotations@ == self.annotations@,
            r.notes@ == self.notes@,
            r.help == Some(help),
    {
        Issue { help: Some(help), ..self }
    }

    /// Whether the issue has a primary annotation and a headline.
    pub fn is_well_formed(&self) -> (r: bool)
        ensures
            r == self.well_formed(),
    {
        if self.message.as_str().unicode_len() == 0 {
            return false;
        }
        let mut i: usize = 0;
        while i < self.annotations.len()
            invariant
                i <= self.annotations.len(),
                self.message@.len() > 0,
                forall|j: int| 0 <= j < i ==> self.annotations@[j].kind != AnnotationKind::Primary,
            decreases self.annotations.len() - i,
        {
            if self.annotations[i].is_primary() {
                proof {
                    assert(self.annotations@[i as int].kind == AnnotationKind::Primary);
                }
                return true;
            }
            i = i + 1;
        }
        false
    }
}

} // verus!
