//! A linear undo/redo history over immutable snapshots: a stack of
//! snapshots and a cursor. Pushing while the cursor is not at the tail
//! prunes the redo branch; the stack never becomes empty.

use vstd::prelude::*;

use vstd::pervasive::cloned;

verus! {

/// The stack and cursor after pushing `v` at `cursor`: everything after the
/// cursor is discarded, `v` is appended, and the cursor moves to the tail.
pub open spec fn history_pushed<T>(entries: Seq<T>, cursor: int, v: T) -> (Seq<T>, int)
    recommends
        0 <= cursor < entries.len(),
{
    (entries.subrange(0, cursor + 1).push(v), cursor + 1)
}

/// A linear undo/redo stack. The fields are exposed so that contracts can
/// speak about the stored snapshots; use the methods to keep the invariant.
#[derive(Debug)]
pub struct UndoHistory<T: Clone> {
    pub stack: Vec<T>,
    pub cursor: usize,
}

impl<T: Clone> UndoHistory<T> {
    /// The stack always holds at least one snapshot and the cursor points
    /// at a valid index.
    pub open spec fn wf(&self) -> bool {
        &&& self.stack@.len() >= 1
        &&& self.cursor < self.stack@.len()
    }

    pub open spec fn entries(&self) -> Seq<T> {
        self.stack@
    }

    pub open spec fn position(&self) -> int {
        self.cursor as int
    }

    pub open spec fn can_undo_spec(&self) -> bool {
        self.cursor > 0
    }

    pub open spec fn can_redo_spec(&self) -> bool {
        self.cursor + 1 < self.stack@.len()
    }

    /// A one-entry stack with the cursor on that entry.
    pub fn new(initial: T) -> (r: Self)
        ensures
            r.wf(),
            r.entries() == seq![initial],
            r.position() == 0,
    {
        let r = UndoHistory { stack: vec![initial], cursor: 0 };
        proof {
            assert(r.entries() =~= seq![initial]);
        }
        r
    }

    /// Append `value` as the newest snapshot, discarding any redo branch
    /// beyond the cursor, and move the cursor to it.
    pub fn push_snapshot(&mut self, value: T)
        requires
            old(self).wf(),
        ensures
            final(self).wf(),
            final(self).entries() == history_pushed(
                old(self).entries(),
                old(self).position(),
                value,
            ).0,
            final(self).position() == history_pushed(
                old(self).entries(),
                old(self).position(),
                value,
            ).1,
    {
        if self.stack.len() - self.cursor > 1 {
            self.stack.truncate(self.cursor + 1);
        }
        self.stack.push(value);
        self.cursor = self.stack.len() - 1;
        proof {
            assert(final(self).entries() =~= history_pushed(
                old(self).entries(),
                old(self).position(),
                value,
            ).0);
        }
    }

    pub fn can_undo(&self) -> (r: bool)
        ensures
            r == self.can_undo_spec(),
    {
        self.cursor > 0
    }

    pub fn can_redo(&self) -> (r: bool)
        requires
            self.wf(),
        ensures
            r == self.can_redo_spec(),
    {
        self.stack.len() - self.cursor > 1
    }

    /// Step the cursor back and return a copy of the snapshot it now rests
    /// on; with the cursor already at the oldest entry, change nothing.
    pub fn undo(&mut self) -> (r: Option<T>)
        requires
            old(self).wf(),
        ensures
            final(self).wf(),
            final(self).entries() == old(self).entries(),
            old(self).can_undo_spec() ==> {
                &&& final(self).position() == old(self).position() - 1
                &&& r matches Some(v) && cloned::<T>(
                    old(self).entries()[old(self).position() - 1],
                    v,
                )
            },
            !old(self).can_undo_spec() ==> *final(self) == *old(self) && r is None,
    {
        if !self.can_undo() {
            return None;
        }
        self.cursor = self.cursor - 1;
        Some(self.stack[self.cursor].clone())
    }

    /// Step the cursor forward and return a copy of the snapshot it now
    /// rests on; with the cursor already at the tail, change nothing.
    pub fn redo(&mut self) -> (r: Option<T>)
        requires
            old(self).wf(),
        ensures
            final(self).wf(),
            final(self).entries() == old(self).entries(),
            old(self).can_redo_spec() ==> {
                &&& final(self).position() == old(self).position() + 1
                &&& r matches Some(v) && cloned::<T>(
                    old(self).entries()[old(self).position() + 1],
                    v,
                )
            },
            !old(self).can_redo_spec() ==> *final(self) == *old(self) && r is None,
    {
        let n = self.stack.len();
        if n - self.cursor <= 1 {
            return None;
        }
        self.cursor = self.cursor + 1;
        Some(self.stack[self.cursor].clone())
    }

    /// Reset to a single-entry stack holding `value`.
    pub fn clear_with(&mut self, value: T)
        ensures
            final(self).wf(),
            final(self).entries() == seq![value],
            final(self).position() == 0,
    {
        self.stack.clear();
        self.stack.push(value);
        self.cursor = 0;
        proof {
            assert(final(self).entries() =~= seq![value]);
        }
    }
}

/// Law: the history is linear. Starting from a lone snapshot `a`, pushing
/// `b` then `c` leaves the stack `[a, b, c]` with the cursor on `c`; the
/// first two undos rest on `b` then `a`, a third finds nothing to undo; a
/// redo rests on `b` again; and pushing `d` from there prunes the redo
/// branch, leaving `[a, b, d]` with nothing to redo.
pub proof fn lemma_history_linear_flow<T>(a: T, b: T, c: T, d: T)
    ensures
        ({
            let s1 = history_pushed(seq![a], 0, b);
            let s2 = history_pushed(s1.0, s1.1, c);
            let s3 = history_pushed(s2.0, 1, d);
            &&& s1.0 == seq![a, b] && s1.1 == 1
            &&& s2.0 == seq![a, b, c] && s2.1 == 2
            // undo from the tail rests on `b`, then on `a`
            &&& s2.0[s2.1 - 1] == b
            &&& s2.0[s2.1 - 2] == a
            // at the oldest entry nothing is left to undo
            &&& !(s2.1 - 2 > 0)
            // redo from there rests on `b` again (index 1)
            &&& s2.0[1] == b
            // pushing `d` with the cursor on `b` prunes `c`
            &&& s3.0 == seq![a, b, d] && s3.1 == 2
            // and leaves nothing to redo
            &&& !(s3.1 + 1 < s3.0.len())
        }),
{
    let s1 = history_pushed(seq![a], 0, b);
    let s2 = history_pushed(s1.0, s1.1, c);
    let s3 = history_pushed(s2.0, 1, d);
    assert(s1.0 =~= seq![a, b]);
    assert(s2.0 =~= seq![a, b, c]);
    assert(s3.0 =~= seq![a, b, d]);
}

} // verus!
