use vstd::prelude::*;

verus! {

/// What `peek` answers from a given position: the unit at `pos` when one is
/// left, `None` when the source is exhausted. `next` returns the same unit
/// and then moves past it.
pub open spec fn unit_at(src: Seq<char>, pos: int) -> Option<(usize, char)> {
    if 0 <= pos < src.len() {
        Some((pos as usize, src[pos]))
    } else {
        None
    }
}

/// Pull-based access to the scanning units of a source string, with exactly
/// one unit of lookahead.
///
/// A scanning unit is a `(offset, character)` pair, where `offset` is the
/// character offset into the source. The cursor visits each unit exactly
/// once however `peek` and `next` are interleaved: a peeked unit is cached
/// in a single slot and handed back by the following `next`, or dropped by
/// `discard_peek` when the caller has folded it into an extended token.
pub struct Cursor<'a> {
    src: &'a str,
    /// Character count of `src`, fixed at construction.
    len: usize,
    /// Units read from the underlying sequence so far, the cached one included.
    read: usize,
    /// The single-slot lookahead cache.
    slot: Option<(usize, char)>,
}

impl<'a> Cursor<'a> {
    /// The characters of the source this cursor walks.
    pub closed spec fn src(self) -> Seq<char> {
        self.src@
    }

    /// The offset of the next unit the cursor will deliver: units before it
    /// are consumed, units from it on are still to come. A cached peeked
    /// unit is not yet consumed, so it still counts as to come.
    pub closed spec fn pos(self) -> int {
        if self.slot is Some {
            self.read - 1
        } else {
            self.read as int
        }
    }

    /// Whether the lookahead slot holds a unit.
    pub closed spec fn has_peeked(self) -> bool {
        self.slot is Some
    }

    /// The cursor's internal invariant: `read` never passes the end, and the
    /// slot, when full, holds exactly the unit read last.
    pub closed spec fn wf(self) -> bool {
        &&& self.len == self.src@.len()
        &&& self.read <= self.len
        &&& self.slot matches Some(p) ==> {
            &&& self.read >= 1
            &&& p.0 + 1 == self.read
            &&& p.1 == self.src@[p.0 as int]
        }
    }

    /// A well-formed cursor stands somewhere inside its source, whose
    /// character count fits a `usize`: the cursor measured it with one at
    /// construction.
    pub proof fn lemma_bounds(&self)
        requires
            self.wf(),
        ensures
            0 <= self.pos() <= self.src().len() <= usize::MAX,
    {
    }

    /// A fresh cursor standing at the start of `src`, with an empty slot.
    pub fn new(src: &'a str) -> (c: Cursor<'a>)
        ensures
            c.wf(),
            c.src() == src@,
            c.pos() == 0,
            !c.has_peeked(),
    {
        Cursor { src, len: src.unicode_len(), read: 0, slot: None }
    }

    /// Consume and return the next unit, or `None` at the end of the source.
    /// A previously peeked unit is returned and cleared instead of reading
    /// the underlying sequence again, so no unit is lost or visited twice.
    pub fn next(&mut self) -> (r: Option<(usize, char)>)
        requires
            old(self).wf(),
        ensures
            final(self).wf(),
            final(self).src() == old(self).src(),
            !final(self).has_peeked(),
            r == unit_at(old(self).src(), old(self).pos()),
            r is Some ==> final(self).pos() == old(self).pos() + 1,
            r is None ==> final(self).pos() == old(self).pos(),
    {
        match self.slot {
            Some(p) => {
                self.slot = None;
                Some(p)
            }
            None => {
                if self.read < self.len {
                    let c = self.src.get_char(self.read);
                    let p = (self.read, c);
                    self.read = self.read + 1;
                    Some(p)
                } else {
                    None
                }
            }
        }
    }

    /// Return the next unit without consuming it, or `None` at the end.
    /// The unit is read ahead once and cached; until `next` or
    /// `discard_peek` clears the slot, repeated peeks answer from the cache,
    /// so the position never moves and the answer never changes.
    pub fn peek(&mut self) -> (r: Option<(usize, char)>)
        requires
            old(self).wf(),
        ensures
            final(self).wf(),
            final(self).src() == old(self).src(),
            final(self).pos() == old(self).pos(),
            r == unit_at(old(self).src(), old(self).pos()),
            final(self).has_peeked() == (r is Some),
    {
        match self.slot {
            Some(p) => Some(p),
            None => {
                if self.read < self.len {
                    let c = self.src.get_char(self.read);
                    let p = (self.read, c);
                    self.read = self.read + 1;
                    self.slot = Some(p);
                    Some(p)
                } else {
                    None
                }
            }
        }
    }

    /// Drop a cached peeked unit without returning it: the caller has
    /// consumed it as part of an extended token. With an empty slot this
    /// changes nothing.
    pub fn discard_peek(&mut self)
        requires
            old(self).wf(),
        ensures
            final(self).wf(),
            final(self).src() == old(self).src(),
            !final(self).has_peeked(),
            old(self).has_peeked() ==> final(self).pos() == old(self).pos() + 1,
            !old(self).has_peeked() ==> final(self).pos() == old(self).pos(),
    {
        self.slot = None;
    }
}

} // verus!
