use vstd::prelude::*;

verus! {

/// A range of byte offsets into one source file, `start` included and `end` excluded.
#[derive(Clone, Copy, Debug, PartialEq, Eq, Hash, Structural)]
pub struct Span {
    pub start: u32,
    pub end: u32,
}

impl Span {
    /// A span is well formed when it does not end before it starts.
    pub open spec fn wf(self) -> bool {
        self.start <= self.end
    }

    /// `self` covers every offset that `inner` covers.
    pub open spec fn covers(self, inner: Span) -> bool {
        self.start <= inner.start && inner.end <= self.end
    }

    /// `self` ends no later than `next` starts.
    pub open spec fn precedes(self, next: Span) -> bool {
        self.end <= next.start
    }

    pub open spec fn spec_join(self, other: Span) -> Span {
        Span {
            start: if self.start <= other.start { self.start } else { other.start },
            end: if self.end >= other.end { self.end } else { other.end },
        }
    }

    pub fn new(start: u32, end: u32) -> (r: Span)
        requires
            start <= end,
        ensures
            r.start == start,
            r.end == end,
            r.wf(),
    {
        Span { start, end }
    }

    /// The zero-width span at `offset`, where a missing token would have stood.
    pub fn zero_at(offset: u32) -> (r: Span)
        ensures
            r.start == offset,
            r.end == offset,
    {
        Span { start: offset, end: offset }
    }

    /// The smallest span that covers both spans.
    pub fn join(self, other: Span) -> (r: Span)
        ensures
            r == self.spec_join(other),
            self.wf() && other.wf() ==> r.wf() && r.covers(self) && r.covers(other),
    {
        Span {
            start: if self.start <= other.start { self.start } else { other.start },
            end: if self.end >= other.end { self.end } else { other.end },
        }
    }

    /// The span from the start of `from` to the end of `to`.
    pub fn between(from: Span, to: Span) -> (r: Span)
        requires
            from.start <= to.end,
        ensures
            r.start == from.start,
            r.end == to.end,
            r.wf(),
    {
        Span { start: from.start, end: to.end }
    }

    pub fn is_zero_width(&self) -> (r: bool)
        ensures
            r == (self.start == self.end),
    {
        self.start == self.end
    }

    pub fn length(&self) -> (r: u32)
        requires
            self.wf(),
        ensures
            r == self.end - self.start,
    {
        self.end - self.start
    }
}

/// Joining is commutative.
pub proof fn lemma_join_commutative(a: Span, b: Span)
    ensures
        a.spec_join(b) == b.spec_join(a),
{
}

} // verus!
