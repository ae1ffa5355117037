//! Unsigned numbers in base ten, read from characters and written to a
//! string.

use vstd::prelude::*;

verus! {

/// Whether `c` is one of the ten ASCII digits.
pub open spec fn is_digit(c: char) -> bool {
    0x30 <= c as u32 <= 0x39
}

/// Whether `s` holds ASCII digits only.
pub open spec fn all_digits(s: Seq<char>) -> bool {
    forall|i: int| 0 <= i < s.len() ==> is_digit(#[trigger] s[i])
}

/// The number that the digits of `s` write in base ten.
pub open spec fn digits_value(s: Seq<char>) -> nat
    decreases s.len(),
{
    if s.len() == 0 {
        0
    } else {
        digits_value(s.drop_last()) * 10 + (s.last() as u32 - 0x30) as nat
    }
}

/// The number that `s` writes, where `s` is an optional `+` followed by at
/// least one digit and the number is at most `max`; `None` for any other text.
pub open spec fn unsigned(s: Seq<char>, max: nat) -> Option<nat> {
    let digits = if s.len() > 0 && s[0] == '+' {
        s.drop_first()
    } else {
        s
    };
    if digits.len() > 0 && all_digits(digits) && digits_value(digits) <= max {
        Some(digits_value(digits))
    } else {
        None
    }
}

/// A run of digits is worth at least as much as any of its prefixes.
pub proof fn lemma_digits_value_grows(s: Seq<char>, k: int)
    requires
        all_digits(s),
        0 <= k <= s.len(),
    ensures
        digits_value(s.take(k)) <= digits_value(s),
    decreases s.len(),
{
    if k == s.len() {
        assert(s.take(k) == s);
    } else {
        lemma_digits_value_grows(s.drop_last(), k);
        assert(s.drop_last().take(k) == s.take(k));
    }
}

/// The ASCII digit that writes `d`, a number below ten.
pub open spec fn digit_char(d: nat) -> char {
    (0x30 + d) as char
}

/// `n` written in base ten, without leading zeros.
pub open spec fn digits_of(n: nat) -> Seq<char>
    decreases n,
{
    if n < 10 {
        seq![digit_char(n)]
    } else {
        digits_of(n / 10).push(digit_char(n % 10))
    }
}

/// A number written in base ten is a run of at least one digit, and reads
/// as that number.
pub proof fn lemma_digits_of(n: nat)
    ensures
        digits_of(n).len() >= 1,
        all_digits(digits_of(n)),
        digits_value(digits_of(n)) == n,
    decreases n,
{
    if n < 10 {
        assert(digits_of(n).drop_last() == Seq::<char>::empty());
        assert(digits_value(Seq::<char>::empty()) == 0);
        assert(digits_of(n).last() == digit_char(n));
    } else {
        lemma_digits_of(n / 10);
        assert(digits_of(n).drop_last() == digits_of(n / 10));
        assert(digits_of(n).last() == digit_char(n % 10));
    }
}

/// Reads `v[lo..hi]` as an unsigned decimal number no larger than `max`.
#[verifier::loop_isolation(false)]
pub fn parse_unsigned(v: &Vec<char>, lo: usize, hi: usize, max: u32) -> (r: Option<u32>)
    requires
        lo <= hi <= v.len(),
    ensures
        match unsigned(v@.subrange(lo as int, hi as int), max as nat) {
            Some(n) => r == Some(n as u32),
            None => r is None,
        },
{
    let ghost text = v@.subrange(lo as int, hi as int);
    let start: usize = if lo < hi && v[lo] == '+' {
        lo + 1
    } else {
        lo
    };
    let ghost digits = v@.subrange(start as int, hi as int);
    assert(digits == if text.len() > 0 && text[0] == '+' {
        text.drop_first()
    } else {
        text
    });
    if start == hi {
        return None;
    }
    let mut acc: u64 = 0;
    let mut i: usize = start;
    while i < hi
        invariant
            start <= i <= hi <= v.len(),
            digits == v@.subrange(start as int, hi as int),
            all_digits(digits.take(i - start)),
            acc == digits_value(digits.take(i - start)),
            acc <= max,
        decreases hi - i,
    {
        let n: u32 = v[i] as u32;
        assert(digits[i - start] == v@[i as int]);
        if n < 0x30 || n > 0x39 {
            return None;
        }
        proof {
            assert(digits.take(i - start + 1).drop_last() == digits.take(i - start));
            assert(digits.take(i - start + 1).last() == v@[i as int]);
        }
        let next: u64 = acc * 10 + (n - 0x30) as u64;
        if next > max as u64 {
            proof {
                if all_digits(digits) {
                    lemma_digits_value_grows(digits, i - start + 1);
                }
            }
            return None;
        }
        acc = next;
        i += 1;
    }
    assert(digits.take(i - start) == digits);
    Some(acc as u32)
}

/// The one-character string that writes a digit.
pub fn digit_str(d: u16) -> (r: &'static str)
    requires
        d < 10,
    ensures
        r@ == seq![digit_char(d as nat)],
{
    proof {
        reveal_strlit("0");
        reveal_strlit("1");
        reveal_strlit("2");
        reveal_strlit("3");
        reveal_strlit("4");
        reveal_strlit("5");
        reveal_strlit("6");
        reveal_strlit("7");
        reveal_strlit("8");
        reveal_strlit("9");
    }
    let r: &'static str = match d {
        0 => "0",
        1 => "1",
        2 => "2",
        3 => "3",
        4 => "4",
        5 => "5",
        6 => "6",
        7 => "7",
        8 => "8",
        _ => "9",
    };
    assert(r@ == seq![digit_char(d as nat)]);
    r
}

/// Writes `n` in base ten at the end of `out`.
pub fn write_number(out: &mut String, n: u16)
    ensures
        final(out)@ == old(out)@ + digits_of(n as nat),
    decreases n,
{
    if n >= 10 {
        write_number(out, n / 10);
    }
    out.append(digit_str(n % 10));
}

} // verus!
