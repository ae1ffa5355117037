//! The words that answer a question: yes, no, and that the item went up in
//! smoke.

use crate::text::{ascii_lower, lowered_chars_of, spells, trim, trim_bounds};
use vstd::prelude::*;

verus! {

/// The word that a typed line holds: the line in small letters, trimmed.
pub open spec fn word(line: Seq<char>) -> Seq<char> {
    trim(ascii_lower(line))
}

/// What the user may answer when asked what became of a scroll, or whether
/// something is so.
#[derive(Clone, Copy, Debug, PartialEq, Eq, Structural)]
pub enum Answer {
    /// `yes`, `y` or `true`.
    Yes,
    /// `no`, `n` or `false`.
    No,
    /// `boom`, `b` or `boomed`.
    Boom,
}

/// The answer that a typed line gives, if it is one of the nine words.
pub open spec fn answer_of(line: Seq<char>) -> Option<Answer> {
    let w = word(line);
    if w == seq!['y', 'e', 's'] || w == seq!['y'] || w == seq!['t', 'r', 'u', 'e'] {
        Some(Answer::Yes)
    } else if w == seq!['n', 'o'] || w == seq!['n'] || w == seq!['f', 'a', 'l', 's', 'e'] {
        Some(Answer::No)
    } else if w == seq!['b', 'o', 'o', 'm'] || w == seq!['b'] || w == seq![
        'b',
        'o',
        'o',
        'm',
        'e',
        'd',
    ] {
        Some(Answer::Boom)
    } else {
        None
    }
}

/// The truth value that a typed line gives: a yes or a no, nothing else.
pub open spec fn flag_of(line: Seq<char>) -> Option<bool> {
    match answer_of(line) {
        Some(Answer::Yes) => Some(true),
        Some(Answer::No) => Some(false),
        _ => None,
    }
}

/// Reads a typed line as an answer.
pub fn parse_answer(line: &str) -> (r: Option<Answer>)
    ensures
        r == answer_of(line@),
{
    let v = lowered_chars_of(line);
    let (a, b) = trim_bounds(&v, 0, v.len());
    let yes: [char; 3] = ['y', 'e', 's'];
    let y: [char; 1] = ['y'];
    let truth: [char; 4] = ['t', 'r', 'u', 'e'];
    let no: [char; 2] = ['n', 'o'];
    let n: [char; 1] = ['n'];
    let falsehood: [char; 5] = ['f', 'a', 'l', 's', 'e'];
    let boom: [char; 4] = ['b', 'o', 'o', 'm'];
    let bee: [char; 1] = ['b'];
    let boomed: [char; 6] = ['b', 'o', 'o', 'm', 'e', 'd'];
    proof {
        assert(v@.subrange(0, v.len() as int) == v@);
        assert(yes@ == seq!['y', 'e', 's']);
        assert(y@ == seq!['y']);
        assert(truth@ == seq!['t', 'r', 'u', 'e']);
        assert(no@ == seq!['n', 'o']);
        assert(n@ == seq!['n']);
        assert(falsehood@ == seq!['f', 'a', 'l', 's', 'e']);
        assert(boom@ == seq!['b', 'o', 'o', 'm']);
        assert(bee@ == seq!['b']);
        assert(boomed@ == seq!['b', 'o', 'o', 'm', 'e', 'd']);
    }
    if spells(&v, a, b, &yes) || spells(&v, a, b, &y) || spells(&v, a, b, &truth) {
        Some(Answer::Yes)
    } else if spells(&v, a, b, &no) || spells(&v, a, b, &n) || spells(&v, a, b, &falsehood) {
        Some(Answer::No)
    } else if spells(&v, a, b, &boom) || spells(&v, a, b, &bee) || spells(&v, a, b, &boomed) {
        Some(Answer::Boom)
    } else {
        None
    }
}

/// Reads a typed line as a yes or a no.
pub fn parse_flag(line: &str) -> (r: Option<bool>)
    ensures
        r == flag_of(line@),
{
    match parse_answer(line) {
        Some(Answer::Yes) => Some(true),
        Some(Answer::No) => Some(false),
        _ => None,
    }
}

} // verus!
