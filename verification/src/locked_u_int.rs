//! A saturating index: the position of the current screen in a sequence.

use core::cmp::Ordering;
use vstd::prelude::*;
use vstd::std_specs::cmp::{PartialEqSpecImpl, PartialOrdSpecImpl};
use vstd::std_specs::ops::{AddSpecImpl, SubSpecImpl};

verus! {

/// An index that is held inside `[0, max]`: moving it past either end leaves
/// it at that end.
#[derive(Copy, Clone, Debug)]
pub struct LockedUInt {
    pub value: usize,
    pub max: usize,
}

/// One movement of a cursor.
#[derive(Copy, Clone, Debug)]
pub enum Move {
    /// Forward by the given number of places.
    Advance(usize),
    /// Back by the given number of places.
    Retreat(usize),
}

impl LockedUInt {
    /// The invariant of a cursor: the value is not beyond the bound.
    pub open spec fn wf(self) -> bool {
        self.value <= self.max
    }

    /// The cursor after moving forward by `n`: `min(value + n, max)`.
    pub open spec fn advanced(self, n: usize) -> LockedUInt {
        LockedUInt {
            value: if self.value + n >= self.max {
                self.max
            } else {
                (self.value + n) as usize
            },
            max: self.max,
        }
    }

    /// The cursor after moving back by `n`: `max(value - n, 0)`.
    pub open spec fn retreated(self, n: usize) -> LockedUInt {
        LockedUInt {
            value: if n > self.value {
                0
            } else {
                (self.value - n) as usize
            },
            max: self.max,
        }
    }

    /// The cursor after one movement.
    pub open spec fn moved(self, m: Move) -> LockedUInt {
        match m {
            Move::Advance(n) => self.advanced(n),
            Move::Retreat(n) => self.retreated(n),
        }
    }

    /// The cursor after a sequence of movements, taken from first to last.
    pub open spec fn moved_all(self, moves: Seq<Move>) -> LockedUInt
        decreases moves.len(),
    {
        if moves.len() == 0 {
            self
        } else {
            self.moved_all(moves.drop_last()).moved(moves.last())
        }
    }

    /// A cursor at the start of a sequence whose last index is `max`.
    pub fn new(max: usize) -> (r: LockedUInt)
        ensures
            r.value == 0,
            r.max == max,
            r.wf(),
    {
        LockedUInt { value: 0, max }
    }

    /// Moves forward by `n`, stopping at `max`.
    pub fn advance(&mut self, n: usize)
        ensures
            *final(self) == old(self).advanced(n),
            final(self).wf(),
    {
        if self.value >= self.max || n >= self.max - self.value {
            self.value = self.max;
        } else {
            self.value = self.value + n;
        }
    }

    /// Moves back by `n`, stopping at zero.
    pub fn retreat(&mut self, n: usize)
        ensures
            *final(self) == old(self).retreated(n),
            old(self).wf() ==> final(self).wf(),
    {
        if n > self.value {
            self.value = 0;
        } else {
            self.value = self.value - n;
        }
    }

    /// Every movement keeps the bound, and keeps the value in range once it
    /// is in range.
    pub proof fn lemma_move_in_range(self, m: Move)
        ensures
            self.moved(m).max == self.max,
            self.wf() ==> self.moved(m).wf(),
            0 <= self.moved(m).value,
            m is Advance ==> self.moved(m).wf(),
    {
    }

    /// Whatever the sequence of advances and retreats, the value of a cursor
    /// that started in `[0, max]` is still in `[0, max]`, and `max` is
    /// unchanged.
    pub proof fn lemma_moves_stay_in_range(self, moves: Seq<Move>)
        requires
            self.wf(),
        ensures
            self.moved_all(moves).max == self.max,
            0 <= self.moved_all(moves).value <= self.max,
        decreases moves.len(),
    {
        if moves.len() > 0 {
            self.lemma_moves_stay_in_range(moves.drop_last());
            self.moved_all(moves.drop_last()).lemma_move_in_range(moves.last());
        }
    }

    /// Retreating from zero stays at zero, and advancing from `max` stays at
    /// `max`, by whatever amount.
    pub proof fn lemma_ends_hold(self, n: usize)
        requires
            self.wf(),
        ensures
            self.value == 0 ==> self.retreated(n).value == 0,
            self.value == self.max ==> self.advanced(n).value == self.max,
    {
    }
}

impl Default for LockedUInt {
    fn default() -> (r: LockedUInt)
        ensures
            r.value == 0,
            r.max == 0,
    {
        LockedUInt { value: 0, max: 0 }
    }
}

impl PartialEq for LockedUInt {
    fn eq(&self, other: &LockedUInt) -> (r: bool) {
        self.value == other.value && self.max == other.max
    }
}

impl PartialEqSpecImpl for LockedUInt {
    open spec fn obeys_eq_spec() -> bool {
        true
    }

    open spec fn eq_spec(&self, other: &LockedUInt) -> bool {
        self.value == other.value && self.max == other.max
    }
}

impl PartialOrd for LockedUInt {
    fn partial_cmp(&self, other: &LockedUInt) -> (r: Option<Ordering>) {
        if self.value < other.value {
            Some(Ordering::Less)
        } else if self.value > other.value {
            Some(Ordering::Greater)
        } else if self.max < other.max {
            Some(Ordering::Less)
        } else if self.max > other.max {
            Some(Ordering::Greater)
        } else {
            Some(Ordering::Equal)
        }
    }
}

impl PartialOrdSpecImpl for LockedUInt {
    open spec fn obeys_partial_cmp_spec() -> bool {
        true
    }

    open spec fn partial_cmp_spec(&self, other: &LockedUInt) -> Option<Ordering> {
        if self.value < other.value {
            Some(Ordering::Less)
        } else if self.value > other.value {
            Some(Ordering::Greater)
        } else if self.max < other.max {
            Some(Ordering::Less)
        } else if self.max > other.max {
            Some(Ordering::Greater)
        } else {
            Some(Ordering::Equal)
        }
    }
}

impl PartialEq<usize> for LockedUInt {
    fn eq(&self, other: &usize) -> (r: bool) {
        self.value == *other
    }
}

impl PartialEqSpecImpl<usize> for LockedUInt {
    open spec fn obeys_eq_spec() -> bool {
        true
    }

    open spec fn eq_spec(&self, other: &usize) -> bool {
        self.value == *other
    }
}

impl PartialOrd<usize> for LockedUInt {
    fn partial_cmp(&self, other: &usize) -> (r: Option<Ordering>) {
        if self.value < *other {
            Some(Ordering::Less)
        } else if self.value == *other {
            Some(Ordering::Equal)
        } else {
            Some(Ordering::Greater)
        }
    }
}

impl PartialOrdSpecImpl<usize> for LockedUInt {
    open spec fn obeys_partial_cmp_spec() -> bool {
        true
    }

    open spec fn partial_cmp_spec(&self, other: &usize) -> Option<Ordering> {
        if self.value < *other {
            Some(Ordering::Less)
        } else if self.value == *other {
            Some(Ordering::Equal)
        } else {
            Some(Ordering::Greater)
        }
    }
}

impl core::ops::Add<usize> for LockedUInt {
    type Output = LockedUInt;

    fn add(self, rhs: usize) -> (r: LockedUInt) {
        let mut r = self;
        r.advance(rhs);
        r
    }
}

impl AddSpecImpl<usize> for LockedUInt {
    open spec fn obeys_add_spec() -> bool {
        true
    }

    open spec fn add_req(self, rhs: usize) -> bool {
        true
    }

    open spec fn add_spec(self, rhs: usize) -> LockedUInt {
        self.advanced(rhs)
    }
}

impl core::ops::AddAssign<usize> for LockedUInt {
    fn add_assign(&mut self, rhs: usize)
        ensures
            *final(self) == old(self).advanced(rhs),
    {
        self.advance(rhs);
    }
}

impl core::ops::Sub<usize> for LockedUInt {
    type Output = LockedUInt;

    fn sub(self, rhs: usize) -> (r: LockedUInt) {
        let mut r = self;
        r.retreat(rhs);
        r
    }
}

impl SubSpecImpl<usize> for LockedUInt {
    open spec fn obeys_sub_spec() -> bool {
        true
    }

    open spec fn sub_req(self, rhs: usize) -> bool {
        true
    }

    open spec fn sub_spec(self, rhs: usize) -> LockedUInt {
        self.retreated(rhs)
    }
}

impl core::ops::SubAssign<usize> for LockedUInt {
    fn sub_assign(&mut self, rhs: usize)
        ensures
            *final(self) == old(self).retreated(rhs),
    {
        self.retreat(rhs);
    }
}

} // verus!
