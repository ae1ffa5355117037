//! The description of a scrolling problem as it is handed in: the item, the
//! scrolls at hand and the goal. Success chances and costs are numbers that
//! this crate only carries, so their type is left to the caller.

use crate::stats::{DimensionMismatch, Subject};
use vstd::prelude::*;

verus! {

/// One kind of scroll.
#[derive(Debug)]
pub struct Scroll<N> {
    /// The chance of success, in percent.
    pub percent: N,
    /// Whether a failure may destroy the item.
    pub dark: bool,
    /// The price of one scroll.
    pub cost: N,
    /// What a success adds to the item's stats.
    pub stats: Vec<u16>,
}

/// A scroll as contracts see it.
pub struct ScrollView<N> {
    pub percent: N,
    pub dark: bool,
    pub cost: N,
    pub stats: Seq<u16>,
}

impl<N> View for Scroll<N> {
    type V = ScrollView<N>;

    open spec fn view(&self) -> ScrollView<N> {
        ScrollView { percent: self.percent, dark: self.dark, cost: self.cost, stats: self.stats@ }
    }
}

/// A whole problem: the item's stats and free slots, the scrolls, the goal.
#[derive(Debug)]
pub struct Input<N> {
    /// The stats the item has now.
    pub stats: Vec<u16>,
    /// The number of scrolls the item can still take.
    pub slots: u8,
    /// The scrolls to choose from.
    pub scrolls: Vec<Scroll<N>>,
    /// The stats the item is meant to reach.
    pub goal: Vec<u16>,
}

/// A problem as contracts see it.
pub struct InputView<N> {
    pub stats: Seq<u16>,
    pub slots: u8,
    pub scrolls: Seq<ScrollView<N>>,
    pub goal: Seq<u16>,
}

impl<N> View for Input<N> {
    type V = InputView<N>;

    open spec fn view(&self) -> InputView<N> {
        InputView {
            stats: self.stats@,
            slots: self.slots,
            scrolls: Seq::new(self.scrolls@.len(), |i: int| self.scrolls@[i]@),
            goal: self.goal@,
        }
    }
}

impl<N> InputView<N> {
    /// Whether the scroll at position `i` has as many stats as the item.
    pub open spec fn scroll_fits(self, i: int) -> bool {
        self.scrolls[i].stats.len() == self.stats.len()
    }

    /// Whether every scroll and the goal have as many stats as the item.
    pub open spec fn dimensions_agree(self) -> bool {
        &&& forall|i: int| 0 <= i < self.scrolls.len() ==> self.scroll_fits(i)
        &&& self.goal.len() == self.stats.len()
    }
}

impl<N> Input<N> {
    /// Checks that every scroll and the goal have as many stats as the item.
    /// The first scroll that does not is reported, or else the goal.
    pub fn check_dimensions(&self) -> (r: Result<(), DimensionMismatch>)
        ensures
            r is Ok <==> self@.dimensions_agree(),
            r matches Err(e) ==> e.expected == self@.stats.len() && match e.subject {
                Subject::Scroll(i) => {
                    &&& i < self@.scrolls.len()
                    &&& !self@.scroll_fits(i as int)
                    &&& forall|j: int| 0 <= j < i ==> self@.scroll_fits(j)
                    &&& e.found == self@.scrolls[i as int].stats.len()
                },
                Subject::Goal => {
                    &&& forall|j: int| 0 <= j < self@.scrolls.len() ==> self@.scroll_fits(j)
                    &&& e.found == self@.goal.len()
                    &&& e.found != e.expected
                },
                Subject::Operand => false,
            },
    {
        let expected: usize = self.stats.len();
        let mut i: usize = 0;
        while i < self.scrolls.len()
            invariant
                i <= self.scrolls.len(),
                expected == self.stats.len(),
                forall|j: int| 0 <= j < i ==> self@.scroll_fits(j),
            decreases self.scrolls.len() - i,
        {
            let found: usize = self.scrolls[i].stats.len();
            if found != expected {
                assert(!self@.scroll_fits(i as int));
                return Err(DimensionMismatch { subject: Subject::Scroll(i), expected, found });
            }
            i += 1;
        }
        if self.goal.len() != expected {
            return Err(
                DimensionMismatch { subject: Subject::Goal, expected, found: self.goal.len() },
            );
        }
        Ok(())
    }
}

} // verus!
