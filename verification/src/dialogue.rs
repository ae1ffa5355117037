//! The dialogue that collects a problem from the keyboard, one typed line at
//! a time. The caller prints the prompt, reads a line and hands it in; the
//! dialogue decides whether the line is accepted and what is asked next.
//!
//! A line that is not accepted changes nothing: the same prompt is due again.

use crate::answer::{flag_of, parse_flag};
use crate::json::{Input, InputView, Scroll, ScrollView};
use crate::line::{parse_slots, parse_stats, slots_of, stats_line};
use crate::text::{blank, is_blank};
use vstd::prelude::*;

verus! {

/// Where the dialogue stands: what is asked for next, and what has been
/// given of the scroll that is being entered.
#[derive(Debug)]
pub enum Stage<N> {
    /// The item's stats.
    Stats,
    /// The item's free slots.
    Slots,
    /// The success chance of another scroll, or a blank line to go on.
    Percent,
    /// Whether the scroll is a dark one.
    Dark { percent: N },
    /// The scroll's price.
    Cost { percent: N, dark: bool },
    /// The scroll's stats.
    ScrollStats { percent: N, dark: bool, cost: N },
    /// The goal.
    Goal,
    /// Everything has been given.
    Done,
}

/// What to ask the user for. Questions about a scroll carry the position
/// that the scroll will have in the list, counted from zero.
#[derive(Clone, Copy, Debug, PartialEq, Eq, Structural)]
pub enum Prompt {
    Stats,
    Slots,
    Percent(usize),
    Dark(usize),
    Cost(usize),
    ScrollStats(usize),
    Goal,
}

/// A dialogue in progress.
#[derive(Debug)]
pub struct Dialogue<N> {
    stage: Stage<N>,
    input: Input<N>,
}

/// A dialogue as contracts see it: the stage, and the problem as far as it
/// has been given.
pub struct DialogueView<N> {
    pub stage: Stage<N>,
    pub input: InputView<N>,
}

/// The dialogue before anything was typed.
pub open spec fn start<N>() -> DialogueView<N> {
    DialogueView {
        stage: Stage::Stats,
        input: InputView {
            stats: Seq::empty(),
            slots: 0,
            scrolls: Seq::empty(),
            goal: Seq::empty(),
        },
    }
}

/// The dialogue after the line `line` was typed in answer to the prompt of
/// `d`. Where a number is asked for, `number` is what the caller read the
/// trimmed line as, if it read as a number at all.
pub open spec fn step<N>(d: DialogueView<N>, line: Seq<char>, number: Option<N>) -> DialogueView<
    N,
> {
    match d.stage {
        Stage::Stats => match stats_line(line) {
            Some(stats) => DialogueView {
                stage: Stage::Slots,
                input: InputView {
                    stats,
                    slots: d.input.slots,
                    scrolls: d.input.scrolls,
                    goal: d.input.goal,
                },
            },
            None => d,
        },
        Stage::Slots => match slots_of(line) {
            Some(slots) => DialogueView {
                stage: Stage::Percent,
                input: InputView {
                    stats: d.input.stats,
                    slots,
                    scrolls: d.input.scrolls,
                    goal: d.input.goal,
                },
            },
            None => d,
        },
        Stage::Percent => if blank(line) && d.input.scrolls.len() > 0 {
            DialogueView { stage: Stage::Goal, input: d.input }
        } else {
            match number {
                Some(percent) => DialogueView { stage: Stage::Dark { percent }, input: d.input },
                None => d,
            }
        },
        Stage::Dark { percent } => match flag_of(line) {
            Some(dark) => DialogueView { stage: Stage::Cost { percent, dark }, input: d.input },
            None => d,
        },
        Stage::Cost { percent, dark } => match number {
            Some(cost) => DialogueView {
                stage: Stage::ScrollStats { percent, dark, cost },
                input: d.input,
            },
            None => d,
        },
        Stage::ScrollStats { percent, dark, cost } => match stats_line(line) {
            Some(stats) => if stats.len() == d.input.stats.len() {
                DialogueView {
                    stage: Stage::Percent,
                    input: InputView {
                        stats: d.input.stats,
                        slots: d.input.slots,
                        scrolls: d.input.scrolls.push(ScrollView { percent, dark, cost, stats }),
                        goal: d.input.goal,
                    },
                }
            } else {
                d
            },
            None => d,
        },
        Stage::Goal => match stats_line(line) {
            Some(goal) => if goal.len() == d.input.stats.len() {
                DialogueView {
                    stage: Stage::Done,
                    input: InputView {
                        stats: d.input.stats,
                        slots: d.input.slots,
                        scrolls: d.input.scrolls,
                        goal,
                    },
                }
            } else {
                d
            },
            None => d,
        },
        Stage::Done => d,
    }
}

/// What `d` asks for next; nothing once it is done.
pub open spec fn prompt_of<N>(d: DialogueView<N>) -> Option<Prompt> {
    match d.stage {
        Stage::Stats => Some(Prompt::Stats),
        Stage::Slots => Some(Prompt::Slots),
        Stage::Percent => Some(Prompt::Percent(d.input.scrolls.len() as usize)),
        Stage::Dark { .. } => Some(Prompt::Dark(d.input.scrolls.len() as usize)),
        Stage::Cost { .. } => Some(Prompt::Cost(d.input.scrolls.len() as usize)),
        Stage::ScrollStats { .. } => Some(Prompt::ScrollStats(d.input.scrolls.len() as usize)),
        Stage::Goal => Some(Prompt::Goal),
        Stage::Done => None,
    }
}

/// What holds of every dialogue that began at the start: each scroll taken so
/// far has the item's dimension, no scroll is taken before the item is known,
/// the goal is asked for only after at least one scroll, and a goal that was
/// taken has the item's dimension.
pub open spec fn consistent<N>(d: DialogueView<N>) -> bool {
    &&& forall|i: int| 0 <= i < d.input.scrolls.len() ==> d.input.scroll_fits(i)
    &&& (d.stage is Stats || d.stage is Slots) ==> d.input.scrolls.len() == 0
    &&& (d.stage is Goal || d.stage is Done) ==> d.input.scrolls.len() > 0
    &&& d.stage is Done ==> d.input.goal.len() == d.input.stats.len()
}

/// The start is consistent.
pub proof fn lemma_start_consistent<N>()
    ensures
        consistent(start::<N>()),
{
}

/// No typed line makes a consistent dialogue inconsistent.
pub proof fn lemma_step_consistent<N>(d: DialogueView<N>, line: Seq<char>, number: Option<N>)
    requires
        consistent(d),
    ensures
        consistent(step(d, line, number)),
{
    let next = step(d, line, number);
    if d.stage is Stats {
    } else if d.stage is ScrollStats {
        assert forall|i: int| 0 <= i < next.input.scrolls.len() implies next.input.scroll_fits(
            i,
        ) by {
            if i < d.input.scrolls.len() {
                assert(d.input.scroll_fits(i));
            }
        }
    } else {
        assert forall|i: int| 0 <= i < next.input.scrolls.len() implies next.input.scroll_fits(
            i,
        ) by {
            assert(d.input.scroll_fits(i));
        }
    }
}

/// A consistent dialogue that is done holds a problem whose dimensions agree
/// and which has at least one scroll.
pub proof fn lemma_done_agrees<N>(d: DialogueView<N>)
    requires
        consistent(d),
        d.stage is Done,
    ensures
        d.input.dimensions_agree(),
        d.input.scrolls.len() > 0,
{
}

/// A dialogue becomes done by an accepted goal and in no other way.
pub proof fn lemma_done_only_after_goal<N>(d: DialogueView<N>, line: Seq<char>, number: Option<N>)
    requires
        step(d, line, number).stage is Done,
    ensures
        d.stage is Done || d.stage is Goal,
{
}

impl<N> Dialogue<N> {
    /// The dialogue as contracts see it.
    pub closed spec fn view(&self) -> DialogueView<N> {
        DialogueView { stage: self.stage, input: self.input@ }
    }

    #[verifier::type_invariant]
    spec fn kept(self) -> bool {
        consistent(self.view())
    }

    /// A dialogue at its start.
    pub fn new() -> (d: Dialogue<N>)
        ensures
            d@ == start::<N>(),
    {
        let d = Dialogue {
            stage: Stage::Stats,
            input: Input { stats: Vec::new(), slots: 0, scrolls: Vec::new(), goal: Vec::new() },
        };
        assert(d.input@.scrolls == Seq::<ScrollView<N>>::empty());
        d
    }

    /// What to ask for next; `None` once everything has been given.
    pub fn prompt(&self) -> (p: Option<Prompt>)
        ensures
            p == prompt_of(self@),
    {
        let n: usize = self.input.scrolls.len();
        match &self.stage {
            Stage::Stats => Some(Prompt::Stats),
            Stage::Slots => Some(Prompt::Slots),
            Stage::Percent => Some(Prompt::Percent(n)),
            Stage::Dark { .. } => Some(Prompt::Dark(n)),
            Stage::Cost { .. } => Some(Prompt::Cost(n)),
            Stage::ScrollStats { .. } => Some(Prompt::ScrollStats(n)),
            Stage::Goal => Some(Prompt::Goal),
            Stage::Done => None,
        }
    }

    /// Whether everything has been given.
    pub fn is_done(&self) -> (r: bool)
        ensures
            r == (self@.stage is Done),
    {
        match &self.stage {
            Stage::Done => true,
            _ => false,
        }
    }

    /// Takes the line typed in answer to the current prompt. `number` is what
    /// the caller read the trimmed line as, if it read as a number.
    pub fn answer(self, line: &str, number: Option<N>) -> (next: Dialogue<N>)
        ensures
            next@ == step(self@, line@, number),
    {
        proof {
            use_type_invariant(&self);
            lemma_step_consistent(self@, line@, number);
        }
        let Dialogue { stage, input } = self;
        match stage {
            Stage::Stats => match parse_stats(line) {
                Some(stats) => Dialogue {
                    stage: Stage::Slots,
                    input: Input {
                        stats,
                        slots: input.slots,
                        scrolls: input.scrolls,
                        goal: input.goal,
                    },
                },
                None => Dialogue { stage: Stage::Stats, input },
            },
            Stage::Slots => match parse_slots(line) {
                Some(slots) => Dialogue {
                    stage: Stage::Percent,
                    input: Input {
                        stats: input.stats,
                        slots,
                        scrolls: input.scrolls,
                        goal: input.goal,
                    },
                },
                None => Dialogue { stage: Stage::Slots, input },
            },
            Stage::Percent => if is_blank(line) && input.scrolls.len() > 0 {
                Dialogue { stage: Stage::Goal, input }
            } else {
                match number {
                    Some(percent) => Dialogue { stage: Stage::Dark { percent }, input },
                    None => Dialogue { stage: Stage::Percent, input },
                }
            },
            Stage::Dark { percent } => match parse_flag(line) {
                Some(dark) => Dialogue { stage: Stage::Cost { percent, dark }, input },
                None => Dialogue { stage: Stage::Dark { percent }, input },
            },
            Stage::Cost { percent, dark } => match number {
                Some(cost) => Dialogue { stage: Stage::ScrollStats { percent, dark, cost }, input },
                None => Dialogue { stage: Stage::Cost { percent, dark }, input },
            },
            Stage::ScrollStats { percent, dark, cost } => match parse_stats(line) {
                Some(stats) => if stats.len() == input.stats.len() {
                    let ghost before = input@;
                    let mut scrolls = input.scrolls;
                    scrolls.push(Scroll { percent, dark, cost, stats });
                    let grown = Input {
                        stats: input.stats,
                        slots: input.slots,
                        scrolls,
                        goal: input.goal,
                    };
                    assert(grown@.scrolls == before.scrolls.push(
                        ScrollView { percent, dark, cost, stats: stats@ },
                    ));
                    Dialogue { stage: Stage::Percent, input: grown }
                } else {
                    Dialogue { stage: Stage::ScrollStats { percent, dark, cost }, input }
                },
                None => Dialogue { stage: Stage::ScrollStats { percent, dark, cost }, input },
            },
            Stage::Goal => match parse_stats(line) {
                Some(goal) => if goal.len() == input.stats.len() {
                    Dialogue {
                        stage: Stage::Done,
                        input: Input {
                            stats: input.stats,
                            slots: input.slots,
                            scrolls: input.scrolls,
                            goal,
                        },
                    }
                } else {
                    Dialogue { stage: Stage::Goal, input }
                },
                None => Dialogue { stage: Stage::Goal, input },
            },
            Stage::Done => Dialogue { stage: Stage::Done, input },
        }
    }

    /// The problem that was collected, once the dialogue is done. Its
    /// dimensions agree and it has at least one scroll.
    pub fn into_input(self) -> (r: Option<Input<N>>)
        ensures
            match r {
                Some(input) => {
                    &&& self@.stage is Done
                    &&& input@ == self@.input
                    &&& input@.dimensions_agree()
                    &&& input@.scrolls.len() > 0
                },
                None => !(self@.stage is Done),
            },
    {
        proof {
            use_type_invariant(&self);
        }
        match self.stage {
            Stage::Done => Some(self.input),
            _ => None,
        }
    }
}

} // verus!
