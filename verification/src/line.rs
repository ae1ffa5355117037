//! Lines of numbers: a count of slots, and stats separated by commas.

use crate::number::{
    digits_of, is_digit, lemma_digits_of, parse_unsigned, unsigned, write_number,
};
use crate::text::{chars_of, is_space, trim, trim_bounds};
use vstd::prelude::*;

verus! {

/// The pieces of `s` that lie between occurrences of `sep`: one more piece
/// than there are separators, each possibly empty.
pub open spec fn split(s: Seq<char>, sep: char) -> Seq<Seq<char>>
    decreases s.len(),
{
    if s.len() == 0 {
        seq![Seq::empty()]
    } else {
        let before = split(s.drop_last(), sep);
        if s.last() == sep {
            before.push(Seq::empty())
        } else {
            before.drop_last().push(before.last().push(s.last()))
        }
    }
}

/// The pieces joined again, with `sep` between neighbours.
pub open spec fn join(pieces: Seq<Seq<char>>, sep: char) -> Seq<char>
    decreases pieces.len(),
{
    if pieces.len() == 0 {
        Seq::empty()
    } else if pieces.len() == 1 {
        pieces[0]
    } else {
        join(pieces.drop_last(), sep).push(sep) + pieces.last()
    }
}

/// Splitting loses nothing: there is at least one piece, no piece holds the
/// separator, and joining the pieces gives the text back.
pub proof fn lemma_split_join(s: Seq<char>, sep: char)
    ensures
        split(s, sep).len() >= 1,
        forall|k: int, i: int|
            0 <= k < split(s, sep).len() && 0 <= i < split(s, sep)[k].len() ==> split(
                s,
                sep,
            )[k][i] != sep,
        join(split(s, sep), sep) == s,
    decreases s.len(),
{
    if s.len() > 0 {
        let before = split(s.drop_last(), sep);
        lemma_split_join(s.drop_last(), sep);
        if s.last() == sep {
            assert(before.push(Seq::empty()).drop_last() == before);
            assert(join(before, sep).push(sep) + Seq::<char>::empty() == s);
        } else {
            let grown = before.drop_last().push(before.last().push(s.last()));
            if before.len() == 1 {
                assert(grown[0] == s);
            } else {
                assert(grown.drop_last() == before.drop_last());
                assert(join(before.drop_last(), sep).push(sep) + before.last().push(s.last())
                    == (join(before.drop_last(), sep).push(sep) + before.last()).push(s.last()));
                assert(s.drop_last().push(s.last()) == s);
            }
        }
    }
}

/// Text without the separator is one piece.
pub proof fn lemma_split_whole(t: Seq<char>, sep: char)
    requires
        forall|i: int| 0 <= i < t.len() ==> t[i] != sep,
    ensures
        split(t, sep) == seq![t],
    decreases t.len(),
{
    if t.len() == 0 {
        assert(t == Seq::<char>::empty());
    } else {
        lemma_split_whole(t.drop_last(), sep);
        let before = seq![t.drop_last()];
        assert(before.last().push(t.last()) == t);
        assert(before.drop_last().push(t) == seq![t]);
    }
}

/// After a separator, text without the separator is one more piece.
pub proof fn lemma_split_after(s: Seq<char>, t: Seq<char>, sep: char)
    requires
        forall|i: int| 0 <= i < t.len() ==> t[i] != sep,
    ensures
        split(s.push(sep) + t, sep) == split(s, sep).push(t),
    decreases t.len(),
{
    let whole = s.push(sep) + t;
    if t.len() == 0 {
        assert(whole == s.push(sep));
        assert(whole.drop_last() == s);
        assert(t == Seq::<char>::empty());
    } else {
        lemma_split_after(s, t.drop_last(), sep);
        assert(whole.drop_last() == s.push(sep) + t.drop_last());
        let before = split(s, sep).push(t.drop_last());
        assert(before.drop_last() == split(s, sep));
        assert(t.drop_last().push(t.last()) == t);
    }
}

/// The number that one field of a stats line writes, whitespace around it
/// aside.
pub open spec fn field_value(piece: Seq<char>) -> Option<u16> {
    match unsigned(trim(piece), 0xFFFF) {
        Some(n) => Some(n as u16),
        None => None,
    }
}

/// The numbers of the pieces that are not empty, in order, if every one of
/// those pieces writes a number.
pub open spec fn fields_values(pieces: Seq<Seq<char>>) -> Option<Seq<u16>>
    decreases pieces.len(),
{
    if pieces.len() == 0 {
        Some(Seq::empty())
    } else {
        match fields_values(pieces.drop_last()) {
            None => None,
            Some(values) => if pieces.last().len() == 0 {
                Some(values)
            } else {
                match field_value(pieces.last()) {
                    Some(n) => Some(values.push(n)),
                    None => None,
                }
            },
        }
    }
}

/// What a line of comma-separated stats says: empty fields are passed over,
/// every other field is trimmed and has to be a number that fits 16 bits.
pub open spec fn stats_line(line: Seq<char>) -> Option<Seq<u16>> {
    fields_values(split(line, ','))
}

/// The slot count that a typed line gives: the trimmed line has to be a
/// number that fits 8 bits.
pub open spec fn slots_of(line: Seq<char>) -> Option<u8> {
    match unsigned(trim(line), 0xFF) {
        Some(n) => Some(n as u8),
        None => None,
    }
}

/// The line that writes `values`: the numbers in base ten, a comma and a
/// space between neighbours.
pub open spec fn line_of(values: Seq<u16>) -> Seq<char>
    decreases values.len(),
{
    if values.len() == 0 {
        Seq::empty()
    } else if values.len() == 1 {
        digits_of(values[0] as nat)
    } else {
        line_of(values.drop_last()) + seq![',', ' '] + digits_of(values.last() as nat)
    }
}

/// A line that writes stats reads as those stats.
pub proof fn lemma_line_reads_back(values: Seq<u16>)
    ensures
        stats_line(line_of(values)) == Some(values),
    decreases values.len(),
{
    reveal(is_space);
    if values.len() == 0 {
        let pieces = split(line_of(values), ',');
        assert(pieces.drop_last() == Seq::<Seq<char>>::empty());
        assert(values == Seq::<u16>::empty());
    } else {
        let digits = digits_of(values.last() as nat);
        lemma_digits_of(values.last() as nat);
        assert(is_digit(digits.first()) && is_digit(digits.last()));
        assert(trim(digits) == digits);
        assert(field_value(digits) == Some(values.last()));
        if values.len() == 1 {
            lemma_split_whole(digits, ',');
            assert(seq![digits].drop_last() == Seq::<Seq<char>>::empty());
            assert(fields_values(Seq::<Seq<char>>::empty()) == Some(Seq::<u16>::empty()));
            assert(Seq::<u16>::empty().push(values.last()) == values);
        } else {
            let rest = line_of(values.drop_last());
            let piece = seq![' '] + digits;
            lemma_line_reads_back(values.drop_last());
            assert(line_of(values) == rest.push(',') + piece);
            assert forall|i: int| 0 <= i < piece.len() implies piece[i] != ',' by {
                if i > 0 {
                    assert(is_digit(digits[i - 1]));
                }
            }
            lemma_split_after(rest, piece, ',');
            assert(split(rest, ',').push(piece).drop_last() == split(rest, ','));
            assert(piece.drop_first() == digits);
            assert(trim(piece) == trim(digits));
            assert(values.drop_last().push(values.last()) == values);
        }
    }
}

/// Reads one field of a stats line.
pub fn parse_field(v: &Vec<char>, lo: usize, hi: usize) -> (r: Option<u16>)
    requires
        lo <= hi <= v.len(),
    ensures
        r == field_value(v@.subrange(lo as int, hi as int)),
{
    let (a, b) = trim_bounds(v, lo, hi);
    match parse_unsigned(v, a, b, 0xFFFF) {
        Some(n) => Some(n as u16),
        None => None,
    }
}

/// Reads a line of comma-separated stats.
pub fn parse_stats(line: &str) -> (r: Option<Vec<u16>>)
    ensures
        match stats_line(line@) {
            Some(values) => r matches Some(v) && v@ == values,
            None => r is None,
        },
{
    let v = chars_of(line);
    let mut out: Vec<u16> = Vec::new();
    let mut good: bool = true;
    let mut start: usize = 0;
    let mut i: usize = 0;
    let ghost mut done: Seq<Seq<char>> = Seq::empty();
    proof {
        assert(v@.take(0).len() == 0);
        assert(v@.subrange(0, 0) == Seq::<char>::empty());
        assert(done.push(Seq::<char>::empty()) == seq![Seq::<char>::empty()]);
    }
    while i < v.len()
        invariant
            start <= i <= v.len(),
            split(v@.take(i as int), ',') == done.push(v@.subrange(start as int, i as int)),
            fields_values(done) == if good {
                Some(out@)
            } else {
                None
            },
        decreases v.len() - i,
    {
        proof {
            assert(v@.take(i + 1).drop_last() == v@.take(i as int));
            assert(done.push(v@.subrange(start as int, i as int)).drop_last() == done);
        }
        if v[i] == ',' {
            if good && start < i {
                match parse_field(&v, start, i) {
                    Some(n) => {
                        out.push(n);
                    },
                    None => {
                        good = false;
                    },
                }
            }
            proof {
                done = done.push(v@.subrange(start as int, i as int));
                assert(done.drop_last() == done.drop_last().push(done.last()).drop_last());
                assert(v@.subrange(i + 1, i + 1) == Seq::<char>::empty());
            }
            start = i + 1;
        } else {
            assert(v@.subrange(start as int, i as int).push(v@[i as int]) == v@.subrange(
                start as int,
                i + 1,
            ));
        }
        i += 1;
    }
    proof {
        assert(v@.take(i as int) == v@);
        assert(done.push(v@.subrange(start as int, i as int)).drop_last() == done);
    }
    if good && start < i {
        match parse_field(&v, start, i) {
            Some(n) => {
                out.push(n);
            },
            None => {
                good = false;
            },
        }
    }
    if good {
        Some(out)
    } else {
        None
    }
}

/// Reads a typed line as a count of slots.
pub fn parse_slots(line: &str) -> (r: Option<u8>)
    ensures
        r == slots_of(line@),
{
    let v = chars_of(line);
    let (a, b) = trim_bounds(&v, 0, v.len());
    assert(v@.subrange(0, v.len() as int) == v@);
    match parse_unsigned(&v, a, b, 0xFF) {
        Some(n) => Some(n as u8),
        None => None,
    }
}

/// Writes stats as a line that `parse_stats` reads back.
pub fn write_stats(values: &Vec<u16>) -> (line: String)
    ensures
        line@ == line_of(values@),
        stats_line(line@) == Some(values@),
{
    let mut line = String::new();
    let mut i: usize = 0;
    while i < values.len()
        invariant
            i <= values.len(),
            line@ == line_of(values@.take(i as int)),
        decreases values.len() - i,
    {
        proof {
            reveal_strlit(", ");
            assert(values@.take(i + 1).drop_last() == values@.take(i as int));
        }
        if i > 0 {
            line.append(", ");
        }
        write_number(&mut line, values[i]);
        i += 1;
    }
    proof {
        assert(values@.take(i as int) == values@);
        lemma_line_reads_back(values@);
    }
    line
}

} // verus!
