use vstd::prelude::*;
use vstd::string::*;

use crate::token::SymbolId;

verus! {

/// An append-only dictionary from strings to ids: each distinct string gets one id.
#[derive(Debug)]
pub struct Interner {
    pub strings: Vec<String>,
}

impl Interner {
    /// The text of each id, in order of interning.
    pub open spec fn view(&self) -> Seq<Seq<char>> {
        Seq::new(self.strings.len() as nat, |i: int| self.strings@[i]@)
    }

    /// No string is held twice, and every id fits in 32 bits.
    pub open spec fn wf(&self) -> bool {
        &&& self.strings.len() <= u32::MAX
        &&& forall|i: int, j: int| 0 <= i < j < self.strings.len() ==> self@[i] != self@[j]
    }

    /// `id` names a string of this interner.
    pub open spec fn holds(&self, id: SymbolId) -> bool {
        (id.index as int) < self.strings.len()
    }

    pub fn new() -> (r: Interner)
        ensures
            r.wf(),
            r@.len() == 0,
    {
        Interner { strings: Vec::new() }
    }

    /// The id of `text`, interning it if it is new.
    pub fn intern(&mut self, text: &str) -> (r: Option<SymbolId>)
        requires
            old(self).wf(),
        ensures
            final(self).wf(),
            r matches Some(id) ==> final(self).holds(id) && final(self)@[id.index as int] == text@,
            r matches Some(id) ==> (old(self)@.contains(text@) ==> final(self)@ == old(self)@),
            r matches Some(id) ==> (!old(self)@.contains(text@) ==> final(self)@ == old(self)@.push(text@)),
            r is None <==> (!old(self)@.contains(text@) && old(self).strings.len() == u32::MAX),
            r is None ==> final(self)@ == old(self)@,
    {
        let owned = String::from_str(text);
        let mut i: usize = 0;
        while i < self.strings.len()
            invariant
                self.wf(),
                *self == *old(self),
                owned@ == text@,
                i <= self.strings.len(),
                forall|j: int| 0 <= j < i ==> self@[j] != text@,
            decreases self.strings.len() - i,
        {
            if self.strings[i] == owned {
                proof {
                    assert(self@[i as int] == text@);
                }
                return Some(SymbolId { index: i as u32 });
            }
            i = i + 1;
        }
        proof {
            assert(!self@.contains(text@)) by {
                if self@.contains(text@) {
                    let k = choose|k: int| 0 <= k < self@.len() && self@[k] == text@;
                    assert(self@[k] != text@);
                }
            }
        }
        if self.strings.len() >= 4294967295usize {
            return None;
        }
        let index = self.strings.len();
        self.strings.push(owned);
        proof {
            assert(self@ =~= old(self)@.push(text@));
        }
        Some(SymbolId { index: index as u32 })
    }

    /// The text that `id` stands for, or the empty string for an id not held here.
    pub fn resolve(&self, id: SymbolId) -> (r: &str)
        ensures
            self.holds(id) ==> r@ == self@[id.index as int],
            !self.holds(id) ==> r@.len() == 0,
    {
        if (id.index as usize) < self.strings.len() {
            self.lookup(id)
        } else {
            proof {
                reveal_strlit("");
            }
            ""
        }
    }

    /// The text that `id` stands for.
    pub fn lookup(&self, id: SymbolId) -> (r: &str)
        requires
            self.holds(id),
        ensures
            r@ == self@[id.index as int],
    {
        self.strings[id.index as usize].as_str()
    }
}

} // verus!
