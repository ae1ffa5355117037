//! Characters of a typed line: whitespace, trimming and letter case.

use vstd::prelude::*;

verus! {

/// Whether `c` has the Unicode property `White_Space`.
#[verifier::opaque]
pub open spec fn is_space(c: char) -> bool {
    let n = c as u32;
    ||| 0x09 <= n <= 0x0D
    ||| n == 0x20
    ||| n == 0x85
    ||| n == 0xA0
    ||| n == 0x1680
    ||| 0x2000 <= n <= 0x200A
    ||| n == 0x2028
    ||| n == 0x2029
    ||| n == 0x202F
    ||| n == 0x205F
    ||| n == 0x3000
}

/// Whether every character of `s` is whitespace.
pub open spec fn all_space(s: Seq<char>) -> bool {
    forall|i: int| 0 <= i < s.len() ==> is_space(#[trigger] s[i])
}

/// `s` without the whitespace at its two ends.
pub open spec fn trim(s: Seq<char>) -> Seq<char>
    decreases s.len(),
{
    if s.len() > 0 && is_space(s.first()) {
        trim(s.drop_first())
    } else if s.len() > 0 && is_space(s.last()) {
        trim(s.drop_last())
    } else {
        s
    }
}

/// Whether `s[a..b]` is `s` with whitespace, and only whitespace, cut off at
/// the two ends, as far as there is any.
pub open spec fn cut_at(s: Seq<char>, a: int, b: int) -> bool {
    &&& 0 <= a <= b <= s.len()
    &&& all_space(s.take(a))
    &&& all_space(s.skip(b))
    &&& a < b ==> !is_space(s[a]) && !is_space(s[b - 1])
}

/// Two runs of whitespace, one after the other, are a run of whitespace.
proof fn lemma_all_space_join(s: Seq<char>, t: Seq<char>)
    requires
        all_space(s),
        all_space(t),
    ensures
        all_space(s + t),
{
    assert forall|i: int| 0 <= i < (s + t).len() implies is_space(#[trigger] (s + t)[i]) by {
        if i < s.len() {
            assert((s + t)[i] == s[i]);
        } else {
            assert((s + t)[i] == t[i - s.len()]);
        }
    }
}

/// Trimming cuts whitespace off the two ends, all there is of it, and
/// nothing else.
pub proof fn lemma_trim_cuts_ends(s: Seq<char>)
    ensures
        exists|a: int, b: int| cut_at(s, a, b) && trim(s) == s.subrange(a, b),
    decreases s.len(),
{
    if s.len() > 0 && is_space(s.first()) {
        let t = s.drop_first();
        lemma_trim_cuts_ends(t);
        let (a, b) = choose|a: int, b: int| cut_at(t, a, b) && trim(t) == t.subrange(a, b);
        assert(all_space(s.take(a + 1))) by {
            assert(all_space(seq![s.first()])) by {
                assert(seq![s.first()][0] == s.first());
            }
            lemma_all_space_join(seq![s.first()], t.take(a));
            assert(s.take(a + 1) == seq![s.first()] + t.take(a));
        }
        assert(all_space(s.skip(b + 1))) by {
            assert(s.skip(b + 1) == t.skip(b));
        }
        assert(a < b ==> s[a + 1] == t[a] && s[b] == t[b - 1]);
        assert(cut_at(s, a + 1, b + 1));
        assert(trim(s) == s.subrange(a + 1, b + 1)) by {
            assert(t.subrange(a, b) == s.subrange(a + 1, b + 1));
        }
    } else if s.len() > 0 && is_space(s.last()) {
        let t = s.drop_last();
        lemma_trim_cuts_ends(t);
        let (a, b) = choose|a: int, b: int| cut_at(t, a, b) && trim(t) == t.subrange(a, b);
        assert(all_space(s.take(a))) by {
            assert(s.take(a) == t.take(a));
        }
        assert(all_space(s.skip(b))) by {
            assert(all_space(seq![s.last()])) by {
                assert(seq![s.last()][0] == s.last());
            }
            lemma_all_space_join(t.skip(b), seq![s.last()]);
            assert(s.skip(b) == t.skip(b) + seq![s.last()]);
        }
        assert(a < b ==> s[a] == t[a] && s[b - 1] == t[b - 1]);
        assert(cut_at(s, a, b));
        assert(trim(s) == s.subrange(a, b)) by {
            assert(t.subrange(a, b) == s.subrange(a, b));
        }
    } else {
        assert(s.subrange(0, s.len() as int) == s);
        assert(s.take(0).len() == 0);
        assert(s.skip(s.len() as int).len() == 0);
        assert(cut_at(s, 0, s.len() as int));
    }
}

/// Trimming leaves nothing of a sequence that is all whitespace.
proof fn lemma_trim_all_space(s: Seq<char>)
    requires
        all_space(s),
    ensures
        trim(s) == Seq::<char>::empty(),
    decreases s.len(),
{
    if s.len() > 0 {
        assert(is_space(s[0]));
        assert forall|i: int| 0 <= i < s.drop_first().len() implies is_space(
            #[trigger] s.drop_first()[i],
        ) by {
            assert(s.drop_first()[i] == s[i + 1]);
        }
        lemma_trim_all_space(s.drop_first());
    }
}

/// Whether a typed line holds nothing but whitespace.
pub open spec fn blank(line: Seq<char>) -> bool {
    trim(line).len() == 0
}

/// A line is blank just when every character of it is whitespace.
pub proof fn lemma_blank_is_all_space(s: Seq<char>)
    ensures
        blank(s) <==> all_space(s),
{
    if all_space(s) {
        lemma_trim_all_space(s);
    }
    if blank(s) {
        lemma_trim_cuts_ends(s);
        let (a, b) = choose|a: int, b: int| cut_at(s, a, b) && trim(s) == s.subrange(a, b);
        assert(a == b);
        lemma_all_space_join(s.take(a), s.skip(a));
        assert(s.take(a) + s.skip(a) == s);
    }
}

/// `c` with an ASCII capital letter replaced by its small letter.
pub open spec fn lower(c: char) -> char {
    if 0x41 <= c as u32 <= 0x5A {
        (c as u32 + 0x20) as char
    } else {
        c
    }
}

/// `s` with every ASCII capital letter replaced by its small letter.
pub open spec fn ascii_lower(s: Seq<char>) -> Seq<char> {
    Seq::new(s.len(), |i: int| lower(s[i]))
}

/// Tells whether a character is whitespace.
pub fn is_whitespace(c: char) -> (r: bool)
    ensures
        r == is_space(c),
{
    reveal(is_space);
    let n: u32 = c as u32;
    (0x09 <= n && n <= 0x0D) || n == 0x20 || n == 0x85 || n == 0xA0 || n == 0x1680 || (0x2000 <= n
        && n <= 0x200A) || n == 0x2028 || n == 0x2029 || n == 0x202F || n == 0x205F || n == 0x3000
}

/// The characters of a string, in order.
pub fn chars_of(s: &str) -> (v: Vec<char>)
    ensures
        v@ == s@,
{
    let mut v: Vec<char> = Vec::new();
    for c in it: s.chars()
        invariant
            v@ == it.seq().take(it.index() as int),
    {
        v.push(c);
    }
    v
}

/// The characters of a string in small letters.
pub fn lowered_chars_of(s: &str) -> (v: Vec<char>)
    ensures
        v@ == ascii_lower(s@),
{
    let raw = chars_of(s);
    let mut v: Vec<char> = Vec::new();
    let mut i: usize = 0;
    while i < raw.len()
        invariant
            i <= raw.len(),
            v.len() == i,
            forall|k: int| 0 <= k < i ==> v@[k] == lower(raw@[k]),
        decreases raw.len() - i,
    {
        let c: char = raw[i];
        let n: u32 = c as u32;
        let small: char = if 0x41 <= n && n <= 0x5A {
            (n as u8 + 0x20) as char
        } else {
            c
        };
        v.push(small);
        i += 1;
    }
    v
}

/// The bounds of the trimmed part of `v[lo..hi]`: from the first character
/// that is not whitespace to behind the last one, or both at `hi` where
/// there is no such character.
pub fn trim_bounds(v: &Vec<char>, lo: usize, hi: usize) -> (r: (usize, usize))
    requires
        lo <= hi <= v.len(),
    ensures
        lo <= r.0 <= r.1 <= hi,
        v@.subrange(r.0 as int, r.1 as int) == trim(v@.subrange(lo as int, hi as int)),
        cut_at(v@.subrange(lo as int, hi as int), r.0 - lo, r.1 - lo),
        r.0 == r.1 ==> r.0 == hi,
{
    let mut a: usize = lo;
    while a < hi && is_whitespace(v[a])
        invariant
            lo <= a <= hi <= v.len(),
            trim(v@.subrange(a as int, hi as int)) == trim(v@.subrange(lo as int, hi as int)),
            forall|i: int| lo <= i < a ==> is_space(v@[i]),
        decreases hi - a,
    {
        assert(v@.subrange(a as int, hi as int).drop_first() == v@.subrange(a + 1, hi as int));
        a += 1;
    }
    let mut b: usize = hi;
    while a < b && is_whitespace(v[b - 1])
        invariant
            lo <= a <= b <= hi <= v.len(),
            a < hi ==> !is_space(v@[a as int]),
            a == hi ==> b == hi,
            trim(v@.subrange(a as int, b as int)) == trim(v@.subrange(lo as int, hi as int)),
            forall|i: int| b <= i < hi ==> is_space(v@[i]),
        decreases b - a,
    {
        assert(v@.subrange(a as int, b as int).drop_last() == v@.subrange(a as int, b - 1));
        b -= 1;
    }
    proof {
        let s = v@.subrange(lo as int, hi as int);
        assert forall|i: int| 0 <= i < a - lo implies is_space(#[trigger] s.take(a - lo)[i]) by {
            assert(s.take(a - lo)[i] == v@[lo + i]);
        }
        assert forall|i: int| 0 <= i < hi - b implies is_space(#[trigger] s.skip(b - lo)[i]) by {
            assert(s.skip(b - lo)[i] == v@[b + i]);
        }
    }
    (a, b)
}

/// Tells whether a typed line holds nothing but whitespace.
pub fn is_blank(line: &str) -> (r: bool)
    ensures
        r == blank(line@),
{
    let v = chars_of(line);
    let (a, b) = trim_bounds(&v, 0, v.len());
    assert(v@.subrange(0, v.len() as int) == v@);
    a == b
}

/// Whether `v[lo..hi]` spells `w`.
pub fn spells(v: &Vec<char>, lo: usize, hi: usize, w: &[char]) -> (r: bool)
    requires
        lo <= hi <= v.len(),
    ensures
        r == (v@.subrange(lo as int, hi as int) == w@),
{
    if hi - lo != w.len() {
        return false;
    }
    let mut i: usize = 0;
    while i < w.len()
        invariant
            lo <= hi <= v.len(),
            hi - lo == w.len(),
            i <= w.len(),
            forall|k: int| 0 <= k < i ==> v@[lo + k] == w@[k],
        decreases w.len() - i,
    {
        if v[lo + i] != w[i] {
            assert(v@.subrange(lo as int, hi as int)[i as int] != w@[i as int]);
            return false;
        }
        i += 1;
    }
    assert(v@.subrange(lo as int, hi as int) == w@);
    true
}

} // verus!
