//! Decimal text of 64-bit signed integers: rendering and parsing.
use vstd::prelude::*;

verus! {

/// The character of one decimal digit `d` (0 to 9).
pub open spec fn digit_char(d: int) -> char {
    if d == 0 {
        '0'
    } else if d == 1 {
        '1'
    } else if d == 2 {
        '2'
    } else if d == 3 {
        '3'
    } else if d == 4 {
        '4'
    } else if d == 5 {
        '5'
    } else if d == 6 {
        '6'
    } else if d == 7 {
        '7'
    } else if d == 8 {
        '8'
    } else {
        '9'
    }
}

pub open spec fn is_digit(c: char) -> bool {
    '0' <= c && c <= '9'
}

pub open spec fn digit_value(c: char) -> int {
    c as int - '0' as int
}

/// The digits of `n` without leading zeros ("0" for zero).
pub open spec fn nat_digits(n: nat) -> Seq<char>
    decreases n,
{
    if n < 10 {
        seq![digit_char(n as int)]
    } else {
        nat_digits(n / 10).push(digit_char((n % 10) as int))
    }
}

/// The canonical decimal text of `n`: a minus sign for negative values,
/// then the digits of the magnitude.
pub open spec fn decimal(n: int) -> Seq<char> {
    if n < 0 {
        seq!['-'] + nat_digits((-n) as nat)
    } else {
        nat_digits(n as nat)
    }
}

pub open spec fn all_digits(s: Seq<char>) -> bool {
    forall|i: int| 0 <= i < s.len() ==> is_digit(#[trigger] s[i])
}

/// The value of a run of decimal digits, read left to right.
pub open spec fn digits_value(s: Seq<char>) -> int
    decreases s.len(),
{
    if s.len() == 0 {
        0
    } else {
        digits_value(s.drop_last()) * 10 + digit_value(s.last())
    }
}

/// The integer that `s` spells: an optional sign, then one or more digits
/// (leading zeros allowed).
pub open spec fn spelled_int(s: Seq<char>) -> Option<int> {
    if s.len() > 0 && (s[0] == '-' || s[0] == '+') {
        let rest = s.subrange(1, s.len() as int);
        if rest.len() > 0 && all_digits(rest) {
            if s[0] == '-' {
                Some(-digits_value(rest))
            } else {
                Some(digits_value(rest))
            }
        } else {
            None
        }
    } else if s.len() > 0 && all_digits(s) {
        Some(digits_value(s))
    } else {
        None
    }
}

pub open spec fn in_i64_range(n: int) -> bool {
    i64::MIN <= n <= i64::MAX
}

/// What parsing `s` as an `i64` gives: the spelled integer where it fits.
pub open spec fn parsed_i64(s: Seq<char>) -> Option<i64> {
    match spelled_int(s) {
        Some(n) => if in_i64_range(n) {
            Some(n as i64)
        } else {
            None
        },
        None => None,
    }
}

proof fn lemma_digit_char(d: int)
    requires
        0 <= d < 10,
    ensures
        is_digit(digit_char(d)),
        digit_value(digit_char(d)) == d,
{
}

/// The digits of a natural number are digits, and read back as the number.
pub proof fn lemma_nat_digits(n: nat)
    ensures
        nat_digits(n).len() > 0,
        all_digits(nat_digits(n)),
        digits_value(nat_digits(n)) == n,
    decreases n,
{
    if n < 10 {
        lemma_digit_char(n as int);
        let s = nat_digits(n);
        assert(s.drop_last() =~= Seq::<char>::empty());
        assert(digits_value(s.drop_last()) == 0);
        assert(s.last() == digit_char(n as int));
    } else {
        lemma_nat_digits(n / 10);
        lemma_digit_char((n % 10) as int);
        let s = nat_digits(n);
        assert(s.drop_last() =~= nat_digits(n / 10));
        assert(s.last() == digit_char((n % 10) as int));
        assert(digits_value(s) == digits_value(nat_digits(n / 10)) * 10 + digit_value(s.last()));
        assert(n == (n / 10) * 10 + n % 10);
        assert(all_digits(s)) by {
            assert forall|i: int| 0 <= i < s.len() implies is_digit(#[trigger] s[i]) by {
                if i < s.len() - 1 {
                    assert(s[i] == nat_digits(n / 10)[i]);
                }
            }
        }
    }
}

/// Parsing the canonical text of an integer gives the integer back.
pub proof fn lemma_decimal_round_trip(n: int)
    ensures
        spelled_int(decimal(n)) == Some(n),
{
    if n < 0 {
        let m = (-n) as nat;
        lemma_nat_digits(m);
        let s = decimal(n);
        assert(s.subrange(1, s.len() as int) =~= nat_digits(m));
    } else {
        lemma_nat_digits(n as nat);
        lemma_digit_char(digits_value(nat_digits(n as nat)) % 10);
        let s = nat_digits(n as nat);
        assert(s[0] != '-' && s[0] != '+') by {
            assert(is_digit(s[0]));
        }
    }
}

/// Distinct integers have distinct canonical texts.
pub proof fn lemma_decimal_injective(a: int, b: int)
    requires
        a != b,
    ensures
        decimal(a) != decimal(b),
{
    lemma_decimal_round_trip(a);
    lemma_decimal_round_trip(b);
}

fn digit_str(d: u64) -> (r: &'static str)
    requires
        d < 10,
    ensures
        r@ == seq![digit_char(d as int)],
{
    if d == 0 {
        proof { reveal_strlit("0"); }
        "0"
    } else if d == 1 {
        proof { reveal_strlit("1"); }
        "1"
    } else if d == 2 {
        proof { reveal_strlit("2"); }
        "2"
    } else if d == 3 {
        proof { reveal_strlit("3"); }
        "3"
    } else if d == 4 {
        proof { reveal_strlit("4"); }
        "4"
    } else if d == 5 {
        proof { reveal_strlit("5"); }
        "5"
    } else if d == 6 {
        proof { reveal_strlit("6"); }
        "6"
    } else if d == 7 {
        proof { reveal_strlit("7"); }
        "7"
    } else if d == 8 {
        proof { reveal_strlit("8"); }
        "8"
    } else {
        proof { reveal_strlit("9"); }
        "9"
    }
}

fn append_nat_digits(s: &mut String, n: u64)
    ensures
        final(s)@ == old(s)@ + nat_digits(n as nat),
    decreases n,
{
    if n >= 10 {
        append_nat_digits(s, n / 10);
    }
    let d = digit_str(n % 10);
    s.append(d);
    proof {
        if n >= 10 {
            assert(final(s)@ =~= old(s)@ + nat_digits(n as nat));
        } else {
            assert(final(s)@ =~= old(s)@ + nat_digits(n as nat));
        }
    }
}

/// Appends the canonical decimal text of `n` to `s`.
pub fn append_decimal(s: &mut String, n: i64)
    ensures
        final(s)@ == old(s)@ + decimal(n as int),
{
    if n < 0 {
        let minus = "-";
        proof { reveal_strlit("-"); }
        s.append(minus);
        let magnitude: u64 = (-(n as i128)) as u64;
        append_nat_digits(s, magnitude);
        assert(final(s)@ =~= old(s)@ + decimal(n as int));
    } else {
        append_nat_digits(s, n as u64);
    }
}

/// The canonical decimal text of `n`, as `i64`'s `Display` writes it.
pub fn i64_to_decimal(n: i64) -> (r: String)
    ensures
        r@ == decimal(n as int),
{
    let mut s = String::new();
    append_decimal(&mut s, n);
    assert(s@ =~= decimal(n as int));
    s
}


/// One more than the largest magnitude an `i64` can have; the parser holds
/// larger values at this bound.
pub const MAGNITUDE_CAP: u128 = 9223372036854775809;

pub open spec fn capped(v: int) -> int {
    if v >= MAGNITUDE_CAP { MAGNITUDE_CAP as int } else { v }
}

/// Parses `s` as an `i64`, as `i64`'s `FromStr` does: an optional `+` or `-`,
/// then one or more ASCII digits, and a value that fits.
pub fn parse_i64(s: &str) -> (r: Option<i64>)
    ensures
        r == parsed_i64(s@),
{
    let len = s.unicode_len();
    if len == 0 {
        return None;
    }
    let first = s.get_char(0);
    let neg = first == '-';
    let start: usize = if first == '-' || first == '+' { 1 } else { 0 };
    if start == len {
        return None;
    }
    let ghost full = s@;
    let mut acc: u128 = 0;
    let mut i: usize = start;
    while i < len
        invariant
            start <= i <= len,
            len == full.len(),
            full == s@,
            start == 1 ==> (full[0] == '-' || full[0] == '+'),
            start == 0 ==> (full[0] != '-' && full[0] != '+'),
            neg == (full[0] == '-'),
            all_digits(full.subrange(start as int, i as int)),
            acc == capped(digits_value(full.subrange(start as int, i as int))),
        decreases len - i,
    {
        let c = s.get_char(i);
        if !('0' <= c && c <= '9') {
            proof {
                let rest = full.subrange(start as int, len as int);
                assert(rest[i - start] == c);
                assert(!is_digit(c));
                if start == 0 {
                    assert(full[i as int] == c);
                    assert(!all_digits(full));
                } else {
                    assert(full.subrange(1, len as int)[i - 1] == c);
                    assert(!all_digits(full.subrange(1, len as int)));
                }
            }
            return None;
        }
        let d = (c as u32 - '0' as u32) as u128;
        proof {
            let prev = full.subrange(start as int, i as int);
            let next = full.subrange(start as int, i + 1);
            assert(next.drop_last() =~= prev);
            assert(next.last() == c);
            assert forall|k: int| 0 <= k < next.len() implies is_digit(#[trigger] next[k]) by {
                if k < prev.len() {
                    assert(next[k] == prev[k]);
                }
            }
        }
        if acc >= MAGNITUDE_CAP {
            acc = MAGNITUDE_CAP;
        } else {
            let v = acc * 10 + d;
            acc = if v >= MAGNITUDE_CAP { MAGNITUDE_CAP } else { v };
        }
        i = i + 1;
    }
    proof {
        let rest = full.subrange(1, len as int);
        if start == 1 {
            assert(rest =~= full.subrange(start as int, len as int));
        } else {
            assert(full =~= full.subrange(0, len as int));
        }
    }
    if neg {
        if acc <= 9223372036854775808 {
            Some((-(acc as i128)) as i64)
        } else {
            None
        }
    } else {
        if acc <= 9223372036854775807 {
            Some(acc as i64)
        } else {
            None
        }
    }
}

} // verus!
