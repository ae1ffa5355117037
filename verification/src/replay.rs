//! Walking a solved decision tree while the user reports what each scroll
//! did. The caller prints and reads; the functions here decide what is shown
//! on arriving at a state and where a typed answer leads.

use crate::answer::{answer_of, parse_answer, Answer};
use crate::graph::{ItemState, ScrollUse};
use crate::stats::Stats;
use vstd::prelude::*;

verus! {

/// What there is to show on arriving at a state.
pub enum Arrival<'a, N> {
    /// A scroll is recommended: show it and ask how it went.
    Ask { stats: &'a Stats, child: &'a ScrollUse<N> },
    /// Nothing is left to decide: these are the final stats.
    Final { stats: &'a Stats },
    /// The item is gone.
    Gone,
}

/// Where a typed answer leads.
pub enum Turn<'a, N> {
    /// The line was no answer: ask again.
    Again,
    /// On to this state.
    Moved(&'a ItemState<N>),
    /// No state is on record for this answer: the stats as they are now are
    /// final.
    Stayed,
    /// The item is gone.
    Gone,
}

/// What arriving at `state` shows.
pub open spec fn arrival_of<'a, N>(state: &'a ItemState<N>) -> Arrival<'a, N> {
    match state {
        ItemState::Exists { stats, child: Some(c), .. } => Arrival::Ask { stats, child: &**c },
        ItemState::Exists { stats, child: None, .. } => Arrival::Final { stats },
        ItemState::Boomed => Arrival::Gone,
    }
}

/// Whether `outcome` is a state in which the item is still there, with stats
/// other than `stats` if `changed`, and with just those stats if not.
pub open spec fn survives<N>(outcome: ItemState<N>, stats: Seq<u16>, changed: bool) -> bool {
    match outcome {
        ItemState::Exists { stats: after, .. } => (after@ != stats) == changed,
        ItemState::Boomed => false,
    }
}

/// The position of the first of `outcomes[from..]` that survives in the way
/// asked for, if there is one.
pub open spec fn first_surviving<N>(
    outcomes: Seq<ItemState<N>>,
    stats: Seq<u16>,
    changed: bool,
    from: int,
) -> Option<int>
    decreases outcomes.len() - from,
{
    if from < 0 || from >= outcomes.len() {
        None
    } else if survives(outcomes[from], stats, changed) {
        Some(from)
    } else {
        first_surviving(outcomes, stats, changed, from + 1)
    }
}

/// Where the answer in `line` leads from a state with stats `stats` on which
/// the scroll use `child` is recommended. A scroll that passed leads to the
/// first outcome whose stats differ, one that failed to the first outcome
/// with the stats unchanged.
pub open spec fn turn_of<'a, N>(stats: Seq<u16>, child: &'a ScrollUse<N>, line: Seq<char>) -> Turn<
    'a,
    N,
> {
    match answer_of(line) {
        None => Turn::Again,
        Some(Answer::Boom) => Turn::Gone,
        Some(answer) => match first_surviving(child.outcomes@, stats, answer == Answer::Yes, 0) {
            Some(i) => Turn::Moved(&child.outcomes@[i]),
            None => Turn::Stayed,
        },
    }
}

/// The first surviving outcome is an outcome that survives, and none before
/// it does; where there is none, no outcome survives.
pub proof fn lemma_first_surviving<N>(
    outcomes: Seq<ItemState<N>>,
    stats: Seq<u16>,
    changed: bool,
    from: int,
)
    requires
        0 <= from,
    ensures
        match first_surviving(outcomes, stats, changed, from) {
            Some(i) => {
                &&& from <= i < outcomes.len()
                &&& survives(outcomes[i], stats, changed)
                &&& forall|j: int| from <= j < i ==> !survives(outcomes[j], stats, changed)
            },
            None => forall|j: int|
                from <= j < outcomes.len() ==> !survives(outcomes[j], stats, changed),
        },
    decreases outcomes.len() - from,
{
    if from < outcomes.len() && !survives(outcomes[from], stats, changed) {
        lemma_first_surviving(outcomes, stats, changed, from + 1);
    }
}

/// A scroll that passed and a scroll that failed never lead to the same
/// outcome.
pub proof fn lemma_pass_and_fail_part<N>(outcomes: Seq<ItemState<N>>, stats: Seq<u16>)
    ensures
        first_surviving(outcomes, stats, true, 0) is Some ==> first_surviving(
            outcomes,
            stats,
            true,
            0,
        ) != first_surviving(outcomes, stats, false, 0),
{
    lemma_first_surviving(outcomes, stats, true, 0);
    lemma_first_surviving(outcomes, stats, false, 0);
}

/// What to show on arriving at `state`.
pub fn arrive<'a, N>(state: &'a ItemState<N>) -> (r: Arrival<'a, N>)
    ensures
        r == arrival_of(state),
{
    match state {
        ItemState::Exists { stats, child: Some(c), .. } => Arrival::Ask { stats, child: &**c },
        ItemState::Exists { stats, child: None, .. } => Arrival::Final { stats },
        ItemState::Boomed => Arrival::Gone,
    }
}

/// The first of `outcomes` that survives in the way asked for.
pub fn find_surviving<'a, N>(outcomes: &'a Vec<ItemState<N>>, stats: &Stats, changed: bool) -> (r:
    Option<&'a ItemState<N>>)
    ensures
        match first_surviving(outcomes@, stats@, changed, 0) {
            Some(i) => r == Some(&outcomes@[i]),
            None => r is None,
        },
{
    let mut k: usize = 0;
    while k < outcomes.len()
        invariant
            k <= outcomes.len(),
            first_surviving(outcomes@, stats@, changed, 0) == first_surviving(
                outcomes@,
                stats@,
                changed,
                k as int,
            ),
        decreases outcomes.len() - k,
    {
        match &outcomes[k] {
            ItemState::Exists { stats: after, .. } => {
                if after.same(stats) != changed {
                    return Some(&outcomes[k]);
                }
            },
            ItemState::Boomed => {},
        }
        k += 1;
    }
    None
}

/// Where the answer typed in `line` leads.
pub fn turn<'a, N>(stats: &Stats, child: &'a ScrollUse<N>, line: &str) -> (r: Turn<'a, N>)
    ensures
        r == turn_of(stats@, child, line@),
{
    match parse_answer(line) {
        None => Turn::Again,
        Some(Answer::Boom) => Turn::Gone,
        Some(answer) => {
            let changed: bool = match answer {
                Answer::Yes => true,
                _ => false,
            };
            match find_surviving(&child.outcomes, stats, changed) {
                Some(next) => Turn::Moved(next),
                None => Turn::Stayed,
            }
        },
    }
}

} // verus!
