//! How far a transfer has come, as an exact fraction.

use vstd::prelude::*;

verus! {

/// A share of the work done: `done` parts out of `total`.
///
/// The percentage shown to the user is `done / total * 100`. Keeping the two
/// counts apart keeps every comparison exact.
#[derive(Clone, Copy, Debug, PartialEq, Eq, Structural)]
pub struct Progress {
    pub done: u64,
    pub total: u64,
}

impl Progress {
    /// The fraction lies between nothing and everything: 0% to 100%.
    pub open spec fn wf(self) -> bool {
        0 < self.total && self.done <= self.total
    }

    /// The fraction is exactly 100%.
    pub open spec fn is_full(self) -> bool {
        self.done == self.total
    }

    /// `self` is no further along than `other`.
    pub open spec fn at_most(self, other: Progress) -> bool {
        self.done * other.total <= other.done * self.total
    }

    /// The percentage, rounded down to a whole number.
    pub open spec fn whole_percent(self) -> int {
        (self.done * 100) / (self.total as int)
    }

    /// `done` parts out of `total`. A `total` of zero counts as one part, and
    /// `done` counts for no more than `total`.
    pub fn new(done: u64, total: u64) -> (p: Progress)
        ensures
            p.wf(),
            p.total == (if total == 0 { 1 } else { total }),
            p.done == (if done <= p.total { done } else { p.total }),
    {
        let total: u64 = if total == 0 { 1 } else { total };
        let done: u64 = if done <= total { done } else { total };
        Progress { done, total }
    }

    /// Nothing done yet: 0%.
    pub fn zero() -> (p: Progress)
        ensures
            p == (Progress { done: 0, total: 1 }),
    {
        Progress { done: 0, total: 1 }
    }

    /// Everything done: 100%.
    pub fn full() -> (p: Progress)
        ensures
            p == (Progress { done: 1, total: 1 }),
    {
        Progress { done: 1, total: 1 }
    }

    /// Whether the fraction is exactly 100%.
    pub fn is_complete(&self) -> (full: bool)
        ensures
            full == self.is_full(),
    {
        self.done == self.total
    }

    /// Whether `self` is no further along than `other`.
    pub fn no_further_than(&self, other: &Progress) -> (le: bool)
        ensures
            le == self.at_most(*other),
    {
        let left: u128 = Self::product(self.done, other.total);
        let right: u128 = Self::product(other.done, self.total);
        left <= right
    }

    /// The percentage, rounded down to a whole number.
    pub fn percent(&self) -> (p: u64)
        requires
            self.wf(),
        ensures
            p == self.whole_percent(),
            p <= 100,
            p == 100 <==> self.is_full(),
    {
        let scaled: u128 = Self::product(self.done, 100);
        let total: u128 = self.total as u128;
        let p: u128 = scaled / total;
        assert(p <= 100 && (p == 100 <==> self.done == self.total)) by (nonlinear_arith)
            requires
                p == (self.done * 100) / (self.total as int),
                0 < self.total,
                self.done <= self.total,
        ;
        p as u64
    }

    fn product(a: u64, b: u64) -> (p: u128)
        ensures
            p == a * b,
    {
        assert(a * b <= u64::MAX * u64::MAX) by (nonlinear_arith)
            requires
                a <= u64::MAX,
                b <= u64::MAX,
        ;
        (a as u128) * (b as u128)
    }
}

/// Between two valid fractions, "no further than" orders as the fractions do:
/// it is reflexive and transitive, and of two fractions one is no further than
/// the other.
pub proof fn at_most_is_an_order(a: Progress, b: Progress, c: Progress)
    requires
        a.wf(),
        b.wf(),
        c.wf(),
    ensures
        a.at_most(a),
        a.at_most(b) || b.at_most(a),
        a.at_most(b) && b.at_most(c) ==> a.at_most(c),
{
    if a.at_most(b) && b.at_most(c) {
        assert(a.done * c.total <= c.done * a.total) by (nonlinear_arith)
            requires
                a.done * b.total <= b.done * a.total,
                b.done * c.total <= c.done * b.total,
                0 < a.total,
                0 < b.total,
                0 < c.total,
                0 <= a.done,
                0 <= b.done,
                0 <= c.done,
        ;
    }
}

} // verus!
