//! An order-preserving, duplicate-free selection list with a cursor.
//!
//! Items carry an identity (an opaque id); insertion appends at the end and
//! is a no-op when an equal-by-identity element is already present. The
//! cursor, when set, is always a valid index; it never moves on insertion.

use vstd::prelude::*;

verus! {

/// A value with an opaque identity; equality of items is equality of keys.
pub trait Identified: Sized {
    /// The identity by which duplicates are recognised.
    spec fn key(&self) -> Seq<char>;

    /// Decides whether two values share one identity.
    fn same_identity(&self, other: &Self) -> (r: bool)
        ensures
            r == (self.key() == other.key());
}

/// Where the cursor lands on a move towards the top of a list of `len`
/// items: one step up when set, the last index when unset, unchanged when
/// the list is empty.
pub open spec fn nav_up(len: nat, cur: Option<int>) -> Option<int> {
    if len == 0 {
        cur
    } else {
        match cur {
            None => Some(len - 1),
            Some(c) => Some(if c > 0 { c - 1 } else { 0int }),
        }
    }
}

/// Where the cursor lands on a move towards the bottom of a list of `len`
/// items: one step down when set, the first index when unset, unchanged
/// when the list is empty.
pub open spec fn nav_down(len: nat, cur: Option<int>) -> Option<int> {
    if len == 0 {
        cur
    } else {
        match cur {
            None => Some(0int),
            Some(c) => Some(if c + 1 < len { c + 1 } else { len - 1 }),
        }
    }
}

/// A single cursor move.
pub enum NavMove {
    TowardsTop,
    TowardsBottom,
}

/// The cursor after one move.
pub open spec fn nav_step(len: nat, cur: Option<int>, mv: NavMove) -> Option<int> {
    match mv {
        NavMove::TowardsTop => nav_up(len, cur),
        NavMove::TowardsBottom => nav_down(len, cur),
    }
}

/// The cursor after a whole sequence of moves.
pub open spec fn nav_run(len: nat, cur: Option<int>, moves: Seq<NavMove>) -> Option<int>
    decreases moves.len(),
{
    if moves.len() == 0 {
        cur
    } else {
        nav_run(len, nav_step(len, cur, moves[0]), moves.skip(1))
    }
}

/// A cursor that is absent or a valid index for a list of `len` items.
pub open spec fn cursor_in_bounds(len: nat, cur: Option<int>) -> bool {
    match cur {
        None => true,
        Some(c) => 0 <= c < len,
    }
}

/// Law: however many moves are made, in whatever order, the cursor of a
/// populated list never leaves `[0, len)`: repeated moves down never pass
/// the last index and repeated moves up never pass the first. After at
/// least one move on a populated list the cursor is set.
pub proof fn lemma_nav_clamped(len: nat, cur: Option<int>, moves: Seq<NavMove>)
    requires
        cursor_in_bounds(len, cur),
    ensures
        cursor_in_bounds(len, nav_run(len, cur, moves)),
        len > 0 && moves.len() > 0 ==> nav_run(len, cur, moves) is Some,
    decreases moves.len(),
{
    if moves.len() > 0 {
        lemma_nav_clamped(len, nav_step(len, cur, moves[0]), moves.skip(1));
    }
}

/// An ordered, deduplicated collection of items plus a cursor.
pub struct SelectionList<T> {
    items: Vec<T>,
    cursor: Option<usize>,
}

impl<T: Identified> SelectionList<T> {
    /// The items, in insertion order.
    pub closed spec fn items_seq(self) -> Seq<T> {
        self.items@
    }

    /// The cursor, as an index into `items_seq`.
    pub closed spec fn cursor_spec(self) -> Option<int> {
        match self.cursor {
            None => None,
            Some(i) => Some(i as int),
        }
    }

    /// No two items share an identity, and the cursor, when set, is a
    /// valid index.
    pub open spec fn wf(self) -> bool {
        &&& (forall|i: int, j: int|
            0 <= i < j < self.items_seq().len() ==> self.items_seq()[i].key()
                != self.items_seq()[j].key())
        &&& cursor_in_bounds(self.items_seq().len(), self.cursor_spec())
    }

    /// An empty list with no selection.
    pub fn new() -> (r: Self)
        ensures
            r.wf(),
            r.items_seq().len() == 0,
            r.cursor_spec() is None,
    {
        SelectionList { items: Vec::new(), cursor: None }
    }

    /// How many items the list holds.
    pub fn len(&self) -> (n: usize)
        ensures
            n == self.items_seq().len(),
    {
        self.items.len()
    }

    /// Whether the list holds no items.
    pub fn is_empty(&self) -> (r: bool)
        ensures
            r == (self.items_seq().len() == 0),
    {
        self.items.len() == 0
    }

    /// The item at a valid index.
    pub fn get(&self, i: usize) -> (r: &T)
        requires
            i < self.items_seq().len(),
        ensures
            *r == self.items_seq()[i as int],
    {
        &self.items[i]
    }

    /// The cursor, if any.
    pub fn selected_index(&self) -> (r: Option<usize>)
        ensures
            r is Some <==> self.cursor_spec() is Some,
            r matches Some(i) ==> self.cursor_spec() == Some(i as int),
    {
        self.cursor
    }

    /// Whether some item already carries this key.
    pub open spec fn has_key(self, k: Seq<char>) -> bool {
        exists|i: int| 0 <= i < self.items_seq().len() && self.items_seq()[i].key() == k
    }

    /// Appends `item` unless an equal-by-identity item is already present;
    /// a duplicate leaves the list unchanged, so the first-inserted value
    /// is the one retained. The cursor never moves on insertion.
    pub fn insert(&mut self, item: T) -> (added: bool)
        requires
            old(self).wf(),
            old(self).items_seq().len() < usize::MAX,
        ensures
            final(self).wf(),
            added == !old(self).has_key(item.key()),
            added ==> final(self).items_seq() == old(self).items_seq().push(item),
            !added ==> final(self).items_seq() == old(self).items_seq(),
            final(self).cursor_spec() == old(self).cursor_spec(),
    {
        let n = self.items.len();
        let mut i: usize = 0;
        while i < n
            invariant
                n == self.items_seq().len(),
                i <= n,
                forall|k: int| 0 <= k < i ==> self.items_seq()[k].key() != item.key(),
                self.wf(),
            decreases n - i,
        {
            if self.items[i].same_identity(&item) {
                return false;
            }
            i += 1;
        }
        self.items.push(item);
        true
    }

    /// Moves the cursor one step towards the top: to `cursor - 1`, clamped
    /// at the first index; an unset cursor lands on the last index. A move
    /// on an empty list changes nothing.
    pub fn move_up(&mut self)
        requires
            old(self).wf(),
        ensures
            final(self).wf(),
            final(self).items_seq() == old(self).items_seq(),
            final(self).cursor_spec() == nav_up(
                old(self).items_seq().len(),
                old(self).cursor_spec(),
            ),
    {
        let n = self.items.len();
        if n == 0 {
            return ;
        }
        self.cursor = match self.cursor {
            None => Some(n - 1),
            Some(c) => Some(if c > 0 {
                c - 1
            } else {
                0
            }),
        };
    }

    /// Moves the cursor one step towards the bottom: to `cursor + 1`,
    /// clamped at the last index; an unset cursor lands on the first
    /// index. A move on an empty list changes nothing.
    pub fn move_down(&mut self)
        requires
            old(self).wf(),
        ensures
            final(self).wf(),
            final(self).items_seq() == old(self).items_seq(),
            final(self).cursor_spec() == nav_down(
                old(self).items_seq().len(),
                old(self).cursor_spec(),
            ),
    {
        let n = self.items.len();
        if n == 0 {
            return ;
        }
        self.cursor = match self.cursor {
            None => Some(0),
            Some(c) => Some(if c + 1 < n {
                c + 1
            } else {
                n - 1
            }),
        };
    }
}

} // verus!
