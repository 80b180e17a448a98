//! How an operation goes on, and lists of work that are gone through one by one.
use vstd::prelude::*;

use crate::error::Error;

verus! {

/// What comes next in an operation: more outside work, or its outcome.
#[derive(Debug, PartialEq, Eq)]
pub enum Step<W, T> {
    Do(W),
    Done(Result<T, Error>),
}

/// Work that waits in line; there is always at least one piece.
#[derive(Debug, PartialEq, Eq)]
pub struct Queue<T> {
    head: T,
    /// The later pieces, the last one first.
    later: Vec<T>,
}

impl<T> View for Queue<T> {
    type V = Seq<T>;

    /// The pieces of work, in the order in which their turn comes.
    closed spec fn view(&self) -> Seq<T> {
        seq![self.head] + self.later@.reverse()
    }
}

impl<T> Queue<T> {
    /// Lines up the given pieces of work, if there are any.
    pub fn line_up(work: Vec<T>) -> (queue: Option<Self>)
        ensures
            match queue {
                Some(q) => q@ == work@ && q@.len() > 0,
                None => work@.len() == 0,
            },
    {
        let ghost all = work@;
        let mut work = work;
        let mut later: Vec<T> = Vec::new();
        while work.len() > 0
            invariant
                work@ + later@.reverse() == all,
            decreases work@.len(),
        {
            let ghost before = work@;
            let ghost turned = later@;
            match work.pop() {
                Some(piece) => {
                    later.push(piece);
                    proof {
                        assert(later@.reverse() =~= seq![piece] + turned.reverse());
                        assert(before =~= work@.push(piece));
                        assert(work@ + later@.reverse() =~= before + turned.reverse());
                    }
                },
                None => {},
            }
        }
        assert(all =~= later@.reverse());
        let ghost turned = later@;
        match later.pop() {
            Some(head) => {
                let queue = Queue { head, later };
                assert(turned =~= later@.push(head));
                assert(queue@ =~= turned.reverse());
                Some(queue)
            },
            None => None,
        }
    }

    /// The piece whose turn it is.
    pub fn current(&self) -> (piece: &T)
        ensures
            self@.len() > 0,
            *piece == self@[0],
    {
        &self.head
    }

    /// The piece whose turn it is, and those that are left after it.
    pub fn take_first(self) -> (taken: (T, Option<Self>))
        ensures
            self@.len() > 0,
            taken.0 == self@[0],
            match taken.1 {
                Some(q) => q@ == self@.skip(1) && q@.len() > 0,
                None => self@.len() == 1,
            },
    {
        let first = self.head;
        let mut later = self.later;
        match later.pop() {
            Some(head) => {
                let queue = Queue { head, later };
                assert(self.later@ =~= later@.push(head));
                assert(self@.skip(1) =~= self.later@.reverse());
                assert(queue@ =~= self.later@.reverse());
                (first, Some(queue))
            },
            None => (first, None),
        }
    }

    /// The pieces that are left once the current one is done.
    pub fn advance(self) -> (queue: Option<Self>)
        ensures
            match queue {
                Some(q) => q@ == self@.skip(1) && q@.len() > 0,
                None => self@.len() == 1,
            },
    {
        self.take_first().1
    }
}

/// Lines of work of which each is what is left of the one before it.
pub open spec fn is_run<T>(lines: Seq<Seq<T>>) -> bool {
    &&& lines.len() > 0
    &&& forall|i: int| 0 <= i < lines.len() ==> (#[trigger] lines[i]).len() > 0
    &&& forall|i: int|
        0 < i < lines.len() ==> #[trigger] lines[i] == lines[i - 1].skip(1)
}

/// Law: a line of work is gone through in order, and each piece has its turn once; when only
/// one piece is left, all the others have had theirs.
pub proof fn law_everything_has_its_turn<T>(lines: Seq<Seq<T>>)
    requires
        is_run(lines),
    ensures
        forall|i: int|
            0 <= i < lines.len() ==> i < lines[0].len() && (#[trigger] lines[i])[0] == lines[0][i],
        lines.last().len() == 1 ==> lines.len() == lines[0].len(),
{
    assert forall|i: int| 0 <= i < lines.len() implies i < lines[0].len() && (#[trigger] lines[i])[0]
        == lines[0][i] by {
        lemma_left_after(lines, i);
        assert(lines[0].skip(i)[0] == lines[0][i]);
    }
    lemma_left_after(lines, lines.len() - 1);
}

proof fn lemma_left_after<T>(lines: Seq<Seq<T>>, i: int)
    requires
        is_run(lines),
        0 <= i < lines.len(),
    ensures
        lines[i] == lines[0].skip(i),
        i < lines[0].len(),
    decreases i,
{
    if i > 0 {
        lemma_left_after(lines, i - 1);
        assert(lines[i] == lines[i - 1].skip(1));
        assert(lines[0].skip(i - 1).skip(1) =~= lines[0].skip(i));
    } else {
        assert(lines[0].skip(0) =~= lines[0]);
    }
}

} // verus!
