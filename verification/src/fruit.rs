//! The fruits that lie on the board.

use crate::position::Position;
use vstd::prelude::*;

verus! {

/// Whether `i` is the index of the first occurrence of `pos` in `cells`.
pub open spec fn is_first_match(cells: Seq<Position>, pos: Position, i: int) -> bool {
    &&& 0 <= i < cells.len()
    &&& cells[i] == pos
    &&& forall|j: int| 0 <= j < i ==> cells[j] != pos
}

/// The index of the first occurrence of `pos` in `cells`, where there is one.
pub open spec fn first_match(cells: Seq<Position>, pos: Position) -> int {
    choose|i: int| is_first_match(cells, pos, i)
}

/// `cells` without the first occurrence of `pos`; `cells` itself where `pos`
/// does not occur.
pub open spec fn without_first(cells: Seq<Position>, pos: Position) -> Seq<Position> {
    if cells.contains(pos) {
        cells.remove(first_match(cells, pos))
    } else {
        cells
    }
}

/// An index that is a first occurrence is the first occurrence.
pub proof fn lemma_first_match_is(cells: Seq<Position>, pos: Position, i: int)
    requires
        is_first_match(cells, pos, i),
    ensures
        first_match(cells, pos) == i,
        cells.contains(pos),
        without_first(cells, pos) == cells.remove(i),
{
    let k = first_match(cells, pos);
    assert(is_first_match(cells, pos, k));
    if k < i {
        assert(cells[k] != pos);
    }
    if i < k {
        assert(cells[i] != pos);
    }
}

/// A cell that occurs has a first occurrence.
pub proof fn lemma_first_match_exists(cells: Seq<Position>, pos: Position)
    requires
        cells.contains(pos),
    ensures
        is_first_match(cells, pos, first_match(cells, pos)),
    decreases cells.len(),
{
    let k = choose|k: int| 0 <= k < cells.len() && cells[k] == pos;
    if exists|j: int| 0 <= j < k && cells[j] == pos {
        let j = choose|j: int| 0 <= j < k && cells[j] == pos;
        let shorter = cells.take(k);
        assert(shorter[j] == pos);
        lemma_first_match_exists(shorter, pos);
        let f = first_match(shorter, pos);
        assert(cells[f] == shorter[f]);
        assert forall|m: int| 0 <= m < f implies cells[m] != pos by {
            assert(shorter[m] != pos);
        }
        assert(is_first_match(cells, pos, f));
    } else {
        assert(is_first_match(cells, pos, k));
    }
}

/// The cells on which a fruit lies, in the order in which the fruits were
/// laid out, and the number of fruits that may lie at a time. The same cell
/// may hold more than one fruit.
#[derive(Debug)]
pub struct FruitSet {
    cells: Vec<Position>,
    cap: usize,
}

impl View for FruitSet {
    type V = Seq<Position>;

    /// The cells of the fruits, oldest first.
    closed spec fn view(&self) -> Seq<Position> {
        self.cells@
    }
}

impl FruitSet {
    /// The number of fruits that may lie at a time.
    pub closed spec fn cap(&self) -> nat {
        self.cap as nat
    }

    /// The set holds no more fruits than may lie at a time.
    pub closed spec fn wf(&self) -> bool {
        self.cells@.len() <= self.cap
    }

    /// A well-formed set is within its limit.
    pub proof fn lemma_within_cap(&self)
        requires
            self.wf(),
        ensures
            self@.len() <= self.cap(),
    {
    }

    /// An empty set that will hold up to `cap` fruits.
    pub fn new(cap: usize) -> (fruits: FruitSet)
        ensures
            fruits.wf(),
            fruits@ == Seq::<Position>::empty(),
            fruits.cap() == cap,
    {
        FruitSet { cells: Vec::new(), cap }
    }

    /// The number of fruits.
    pub fn len(&self) -> (n: usize)
        ensures
            n == self@.len(),
    {
        self.cells.len()
    }

    /// Whether no further fruit can be laid out.
    pub fn is_full(&self) -> (full: bool)
        ensures
            full == (self@.len() >= self.cap()),
    {
        self.cells.len() >= self.cap
    }

    /// Whether a fruit lies on `pos`.
    pub fn contains(&self, pos: Position) -> (found: bool)
        ensures
            found == self@.contains(pos),
    {
        let mut i: usize = 0;
        while i < self.cells.len()
            invariant
                i <= self@.len(),
                forall|j: int| 0 <= j < i ==> self@[j] != pos,
            decreases self@.len() - i,
        {
            if self.cells[i] == pos {
                return true;
            }
            i += 1;
        }
        false
    }

    /// Lays a fruit out on `pos`, unless the set is full. Returns whether the
    /// fruit was laid out.
    pub fn insert(&mut self, pos: Position) -> (added: bool)
        requires
            old(self).wf(),
        ensures
            final(self).wf(),
            added == (old(self)@.len() < old(self).cap()),
            added ==> final(self)@ == old(self)@.push(pos),
            !added ==> final(self)@ == old(self)@,
            final(self).cap() == old(self).cap(),
    {
        if self.cells.len() < self.cap {
            self.cells.push(pos);
            true
        } else {
            false
        }
    }

    /// Takes the oldest fruit that lies on `pos` away. Returns whether there
    /// was one.
    pub fn consume(&mut self, pos: Position) -> (eaten: bool)
        requires
            old(self).wf(),
        ensures
            final(self).wf(),
            eaten == old(self)@.contains(pos),
            final(self)@ == without_first(old(self)@, pos),
            final(self).cap() == old(self).cap(),
    {
        let mut i: usize = 0;
        while i < self.cells.len()
            invariant
                i <= self@.len(),
                self.wf(),
                *self == *old(self),
                forall|j: int| 0 <= j < i ==> self@[j] != pos,
            decreases self@.len() - i,
        {
            if self.cells[i] == pos {
                proof {
                    lemma_first_match_is(self@, pos, i as int);
                }
                self.cells.remove(i);
                return true;
            }
            i += 1;
        }
        false
    }

    /// A snapshot of the cells of the fruits, oldest first.
    pub fn cells(&self) -> (snapshot: Vec<Position>)
        ensures
            snapshot@ == self@,
    {
        let mut snapshot: Vec<Position> = Vec::new();
        let mut i: usize = 0;
        while i < self.cells.len()
            invariant
                i <= self@.len(),
                snapshot@ == self@.take(i as int),
            decreases self@.len() - i,
        {
            snapshot.push(self.cells[i]);
            i += 1;
        }
        snapshot
    }
}

} // verus!
