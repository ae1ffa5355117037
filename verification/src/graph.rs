//! The solved decision tree: for each state of the item the scroll to use,
//! what that choice is worth, and the states it may lead to. The numbers in
//! it are only carried, so their type is left to the caller.

use crate::stats::Stats;
use vstd::prelude::*;

verus! {

/// A state of the item.
#[derive(Debug)]
pub enum ItemState<N> {
    /// The item is there.
    Exists {
        /// The slots it has left.
        slots: u8,
        /// Its stats.
        stats: Stats,
        /// The scroll to use on it, where there is anything left to decide.
        child: Option<Box<ScrollUse<N>>>,
    },
    /// The item was destroyed.
    Boomed,
}

/// The use of one scroll on one state.
#[derive(Debug)]
pub struct ScrollUse<N> {
    /// The chance of reaching the goal from here.
    pub p_goal: N,
    /// The expected cost of the scrolls used from here on.
    pub exp_cost: N,
    /// The position of the chosen scroll in the scroll list.
    pub scroll: usize,
    /// The states that the scroll may leave the item in.
    pub outcomes: Vec<ItemState<N>>,
}

impl<N> ItemState<N> {
    /// An item with nothing decided for it yet.
    pub fn new_exists(slots: u8, stats: Stats) -> (s: ItemState<N>)
        ensures
            s == (ItemState::<N>::Exists { slots, stats, child: None }),
    {
        ItemState::Exists { slots, stats, child: None }
    }

    /// The scroll to use in this state, if one was chosen.
    pub fn child(&self) -> (r: Option<&ScrollUse<N>>)
        ensures
            match *self {
                ItemState::Exists { child: Some(c), .. } => r == Some(&*c),
                _ => r is None,
            },
    {
        match self {
            ItemState::Exists { child: Some(c), .. } => Some(&**c),
            _ => None,
        }
    }
}

} // verus!
