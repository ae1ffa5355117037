//! The stat vector of an item: a fixed-length sequence of attribute values.

use crate::line::{line_of, stats_line, write_stats};
use vstd::prelude::*;

verus! {

/// Which vector did not have the dimension that was expected.
#[derive(Clone, Copy, Debug, PartialEq, Eq, Structural)]
pub enum Subject {
    /// The stats of the scroll at this position of the scroll list.
    Scroll(usize),
    /// The goal.
    Goal,
    /// The second of two vectors that were to be combined.
    Operand,
}

/// Two stat vectors that belong together differ in length.
#[derive(Clone, Copy, Debug, PartialEq, Eq, Structural)]
pub struct DimensionMismatch {
    /// The vector that is out of line.
    pub subject: Subject,
    /// The length it should have had.
    pub expected: usize,
    /// The length it has.
    pub found: usize,
}

/// The attribute values of an item, or the values a scroll adds to them.
#[derive(Debug)]
pub struct Stats {
    values: Vec<u16>,
}

impl View for Stats {
    type V = Seq<u16>;

    closed spec fn view(&self) -> Seq<u16> {
        self.values@
    }
}

impl Stats {
    /// Wraps the values given.
    pub fn from_vec(values: Vec<u16>) -> (s: Stats)
        ensures
            s@ == values@,
    {
        Stats { values }
    }

    /// The number of attributes.
    pub fn len(&self) -> (n: usize)
        ensures
            n == self@.len(),
    {
        self.values.len()
    }

    /// The values, in order.
    pub fn values(&self) -> (v: &Vec<u16>)
        ensures
            v@ == self@,
    {
        &self.values
    }

    /// Gives the values back.
    pub fn into_vec(self) -> (v: Vec<u16>)
        ensures
            v@ == self@,
    {
        self.values
    }

    /// The stats written as a line: the values in base ten, a comma and a
    /// space between neighbours. Read as a line of stats, it gives the values
    /// back.
    pub fn to_line(&self) -> (line: String)
        ensures
            line@ == line_of(self@),
            stats_line(line@) == Some(self@),
    {
        write_stats(&self.values)
    }

    /// Whether two vectors have the same length and the same values.
    pub fn same(&self, other: &Stats) -> (r: bool)
        ensures
            r == (self@ == other@),
    {
        same_values(&self.values, &other.values)
    }

    /// The element-wise sum of two vectors of one dimension. Vectors of
    /// different dimensions are refused.
    pub fn plus(&self, other: &Stats) -> (r: Result<Stats, DimensionMismatch>)
        requires
            self@.len() == other@.len() ==> forall|i: int|
                0 <= i < self@.len() ==> self@[i] + other@[i] <= u16::MAX,
        ensures
            match r {
                Ok(sum) => {
                    &&& self@.len() == other@.len()
                    &&& sum@.len() == self@.len()
                    &&& forall|i: int| 0 <= i < sum@.len() ==> sum@[i] == self@[i] + other@[i]
                },
                Err(e) => {
                    &&& self@.len() != other@.len()
                    &&& e == (DimensionMismatch {
                        subject: Subject::Operand,
                        expected: self@.len() as usize,
                        found: other@.len() as usize,
                    })
                },
            },
    {
        if self.values.len() != other.values.len() {
            return Err(
                DimensionMismatch {
                    subject: Subject::Operand,
                    expected: self.values.len(),
                    found: other.values.len(),
                },
            );
        }
        let mut sum: Vec<u16> = Vec::new();
        let mut i: usize = 0;
        while i < self.values.len()
            invariant
                i <= self.values.len(),
                self.values.len() == other.values.len(),
                sum.len() == i,
                forall|k: int|
                    0 <= k < self.values@.len() ==> self.values@[k] + other.values@[k] <= u16::MAX,
                forall|k: int| 0 <= k < i ==> sum@[k] == self.values@[k] + other.values@[k],
            decreases self.values.len() - i,
        {
            sum.push(self.values[i] + other.values[i]);
            i += 1;
        }
        Ok(Stats { values: sum })
    }
}

/// Whether two lists hold the same values in the same order.
pub fn same_values(a: &Vec<u16>, b: &Vec<u16>) -> (r: bool)
    ensures
        r == (a@ == b@),
{
    if a.len() != b.len() {
        return false;
    }
    let mut i: usize = 0;
    while i < a.len()
        invariant
            i <= a.len(),
            a.len() == b.len(),
            forall|k: int| 0 <= k < i ==> a@[k] == b@[k],
        decreases a.len() - i,
    {
        if a[i] != b[i] {
            return false;
        }
        i += 1;
    }
    assert(a@ == b@);
    true
}

impl PartialEq for Stats {
    fn eq(&self, other: &Stats) -> (r: bool) {
        self.same(other)
    }
}

impl vstd::std_specs::cmp::PartialEqSpecImpl for Stats {
    open spec fn obeys_eq_spec() -> bool {
        true
    }

    open spec fn eq_spec(&self, other: &Stats) -> bool {
        self@ == other@
    }
}

} // verus!
