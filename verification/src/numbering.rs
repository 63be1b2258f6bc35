//! Decimal integer text: parsing as `str::parse::<i64>` does, and zero-padded
//! formatting as `format!("{:06}", n)` does for non-negative numbers.
use vstd::prelude::*;
use crate::text::push_char;
use crate::money::pow10;

verus! {

/// `c` is an ASCII decimal digit.
pub open spec fn is_digit(c: char) -> bool {
    '0' <= c && c <= '9'
}

/// Every character of `d` is a decimal digit.
pub open spec fn all_digits(d: Seq<char>) -> bool {
    forall|i: int| 0 <= i < d.len() ==> is_digit(#[trigger] d[i])
}

/// The value of a digit character.
pub open spec fn digit_value(c: char) -> int {
    (c as int) - ('0' as int)
}

/// The value of a run of decimal digits (leading zeros allowed).
pub open spec fn digits_value(d: Seq<char>) -> int
    decreases d.len(),
{
    if d.len() == 0 {
        0
    } else {
        digits_value(d.drop_last()) * 10 + digit_value(d.last())
    }
}

/// What `str::parse::<i64>` gives: an optional `+` or `-` sign followed by one or
/// more decimal digits, whose value fits an `i64`; anything else is an error.
pub open spec fn i64_from_text(s: Seq<char>) -> Option<i64> {
    let neg = s.len() > 0 && s[0] == '-';
    let signed = s.len() > 0 && (s[0] == '-' || s[0] == '+');
    let body = if signed {
        s.subrange(1, s.len() as int)
    } else {
        s
    };
    if body.len() == 0 || !all_digits(body) {
        None
    } else {
        let v = if neg {
            -digits_value(body)
        } else {
            digits_value(body)
        };
        if i64::MIN <= v <= i64::MAX {
            Some(v as i64)
        } else {
            None
        }
    }
}

/// The value of a digit run does not shrink when digits are added to it.
proof fn lemma_digits_prefix_le(d: Seq<char>, k: int)
    requires
        0 <= k <= d.len(),
        all_digits(d),
    ensures
        0 <= digits_value(d.subrange(0, k)) <= digits_value(d),
    decreases d.len() - k,
{
    if k < d.len() {
        lemma_digits_prefix_le(d, k + 1);
        let p = d.subrange(0, k + 1);
        assert(p.drop_last() =~= d.subrange(0, k));
        assert(is_digit(d[k]));
    } else {
        assert(d.subrange(0, k) =~= d);
    }
    lemma_digits_nonneg(d.subrange(0, k));
}

proof fn lemma_digits_nonneg(d: Seq<char>)
    requires
        all_digits(d),
    ensures
        digits_value(d) >= 0,
    decreases d.len(),
{
    if d.len() > 0 {
        assert(is_digit(d.last()));
        lemma_digits_nonneg(d.drop_last());
    }
}

/// `str::parse::<i64>`: an optional `+` or `-`, then one or more ASCII digits whose
/// value fits an `i64`; anything else is an error.
pub(crate) fn parse_i64(s: &str) -> (r: Option<i64>)
    ensures
        r == i64_from_text(s@),
{
    let n = s.unicode_len();
    if n == 0 {
        return None;
    }
    let first = s.get_char(0);
    let neg = first == '-';
    let start: usize = if first == '-' || first == '+' { 1 } else { 0 };
    let ghost body = s@.subrange(start as int, n as int);
    proof {
        assert(s@[0] == first);
        if start == 0 {
            assert(body =~= s@);
        }
    }
    if start >= n {
        return None;
    }
    let limit: i128 = 0x8000_0000_0000_0000;
    let mut acc: i128 = 0;
    let mut i: usize = start;
    while i < n
        invariant
            n == s@.len(),
            start <= i <= n,
            start < n,
            body == s@.subrange(start as int, n as int),
            body == (if s@[0] == '-' || s@[0] == '+' {
                s@.subrange(1, s@.len() as int)
            } else {
                s@
            }),
            neg == (s@[0] == '-'),
            all_digits(body.subrange(0, i - start)),
            acc == digits_value(body.subrange(0, i - start)),
            0 <= acc <= limit,
            limit == 0x8000_0000_0000_0000,
        decreases n - i,
    {
        let c = s.get_char(i);
        proof {
            assert(body[i - start] == c);
        }
        if !('0' <= c && c <= '9') {
            proof {
                assert(!is_digit(body[i - start]));
                assert(!all_digits(body));
            }
            return None;
        }
        let d: i128 = (c as u32 - '0' as u32) as i128;
        let ghost p = body.subrange(0, i - start + 1);
        proof {
            assert(p.drop_last() =~= body.subrange(0, i - start));
            assert(p.last() == c);
            assert(all_digits(p));
        }
        acc = acc * 10 + d;
        i = i + 1;
        if acc > limit {
            proof {
                assert(acc == digits_value(body.subrange(0, i - start)));
                if all_digits(body) {
                    lemma_digits_prefix_le(body, i - start);
                    assert(digits_value(body) > limit);
                }
            }
            return None;
        }
    }
    proof {
        assert(body.subrange(0, n - start) =~= body);
    }
    if neg {
        Some((-acc) as i64)
    } else if acc <= 0x7FFF_FFFF_FFFF_FFFF {
        Some(acc as i64)
    } else {
        None
    }
}

/// The digit character of `d` (`0..=9`).
pub open spec fn digit_char(d: int) -> char {
    if d <= 0 {
        '0'
    } else if d == 1 {
        '1'
    } else if d == 2 {
        '2'
    } else if d == 3 {
        '3'
    } else if d == 4 {
        '4'
    } else if d == 5 {
        '5'
    } else if d == 6 {
        '6'
    } else if d == 7 {
        '7'
    } else if d == 8 {
        '8'
    } else {
        '9'
    }
}

/// The decimal digits of `n`, without leading zeros (`0` is `"0"`).
pub open spec fn digits_of(n: nat) -> Seq<char>
    decreases n,
{
    if n < 10 {
        seq![digit_char(n as int)]
    } else {
        digits_of(n / 10).push(digit_char((n % 10) as int))
    }
}

/// `n` zeros.
pub open spec fn zeros(n: nat) -> Seq<char> {
    Seq::new(n, |i: int| '0')
}

/// `format!("{:0w$}", n)` for a non-negative `n`: the digits of `n`, left-padded with
/// zeros to at least `w` characters.
pub open spec fn zero_padded(n: nat, w: nat) -> Seq<char> {
    let d = digits_of(n);
    if d.len() < w {
        zeros((w - d.len()) as nat) + d
    } else {
        d
    }
}

/// The character of a decimal digit.
fn digit_to_char(d: u64) -> (c: char)
    requires
        d < 10,
    ensures
        c == digit_char(d as int),
{
    match d {
        0 => '0',
        1 => '1',
        2 => '2',
        3 => '3',
        4 => '4',
        5 => '5',
        6 => '6',
        7 => '7',
        8 => '8',
        _ => '9',
    }
}

/// Appends the decimal digits of `n`.
pub fn push_digits(out: &mut String, n: u64)
    ensures
        final(out)@ == old(out)@ + digits_of(n as nat),
    decreases n,
{
    if n >= 10 {
        push_digits(out, n / 10);
    }
    let c = digit_to_char(n % 10);
    push_char(out, c);
    proof {
        assert(c == digit_char((n % 10) as int));
        if n < 10 {
            assert(old(out)@ + digits_of(n as nat) =~= old(out)@.push(c));
        } else {
            assert(old(out)@ + digits_of(n as nat) =~= (old(out)@ + digits_of((n / 10) as nat)).push(c));
        }
    }
}

/// The number of decimal digits of `n`.
pub fn digit_count(n: u64) -> (r: usize)
    ensures
        r == digits_of(n as nat).len(),
        r <= 20,
    decreases n,
{
    proof {
        lemma_digits_len(n as nat);
    }
    if n >= 10 {
        digit_count(n / 10) + 1
    } else {
        1
    }
}

proof fn lemma_digits_len(n: nat)
    ensures
        1 <= digits_of(n).len(),
        n < 10000000000000000000 ==> digits_of(n).len() <= 19,
        n < 100000000000000000000 ==> digits_of(n).len() <= 20,
{
    assert(pow10(20) == 100000000000000000000) by {
        reveal_with_fuel(pow10, 21);
    }
    lemma_digits_len_bound(n, 19, 10000000000000000000);
    lemma_digits_len_bound(n, 20, 100000000000000000000);
}

proof fn lemma_digits_len_bound(n: nat, k: nat, p: nat)
    requires
        k >= 1,
        p == pow10(k),
    ensures
        1 <= digits_of(n).len(),
        n < p ==> digits_of(n).len() <= k,
    decreases k,
{
    reveal_with_fuel(pow10, 2);
    if n >= 10 {
        if k >= 2 {
            lemma_digits_len_bound(n / 10, (k - 1) as nat, (p / 10) as nat);
        }
    }
}

/// Appends `n` zero-padded to `width` characters (`format!("{:0width$}", n)`).
pub fn push_zero_padded(out: &mut String, n: u64, width: usize)
    ensures
        final(out)@ == old(out)@ + zero_padded(n as nat, width as nat),
{
    let len = digit_count(n);
    let ghost start = out@;
    if len < width {
        let mut i: usize = 0;
        while i < width - len
            invariant
                len < width,
                i <= width - len,
                out@ == start + zeros(i as nat),
            decreases width - len - i,
        {
            push_char(out, '0');
            proof {
                assert(start + zeros((i + 1) as nat) =~= (start + zeros(i as nat)).push('0'));
            }
            i = i + 1;
        }
    }
    let ghost padded = out@;
    push_digits(out, n);
    proof {
        if len < width {
            assert(out@ =~= start + (zeros((width - len) as nat) + digits_of(n as nat)));
        } else {
            assert(out@ =~= start + digits_of(n as nat));
        }
    }
}

/// `format!("{}", n)` for an integer: a `-` before the digits of a negative number.
pub open spec fn int_text(n: int) -> Seq<char> {
    if n < 0 {
        seq!['-'] + digits_of((-n) as nat)
    } else {
        digits_of(n as nat)
    }
}

/// Appends `n` as `format!("{}", n)` writes it.
pub fn push_i64(out: &mut String, n: i64)
    ensures
        final(out)@ == old(out)@ + int_text(n as int),
{
    if n < 0 {
        push_char(out, '-');
        let m: u64 = if n == i64::MIN {
            9223372036854775808u64
        } else {
            (-n) as u64
        };
        push_digits(out, m);
        proof {
            assert(old(out)@ + int_text(n as int) =~= old(out)@.push('-') + digits_of(m as nat));
        }
    } else {
        push_digits(out, n as u64);
    }
}

/// The digits of a number are digits.
pub proof fn lemma_digits_are_digits(n: nat)
    ensures
        all_digits(digits_of(n)),
    decreases n,
{
    if n >= 10 {
        lemma_digits_are_digits(n / 10);
        assert forall|i: int| 0 <= i < digits_of(n).len() implies is_digit(
            #[trigger] digits_of(n)[i],
        ) by {
            if i < digits_of(n / 10).len() {
                assert(digits_of(n)[i] == digits_of(n / 10)[i]);
            }
        }
    }
}

/// Reading the digits of `n` back gives `n`.
pub proof fn lemma_digits_value(n: nat)
    ensures
        digits_value(digits_of(n)) == n,
    decreases n,
{
    if n >= 10 {
        lemma_digits_value(n / 10);
        assert(digits_of(n).drop_last() =~= digits_of(n / 10));
        assert(digits_of(n).last() == digit_char((n % 10) as int));
        assert(digits_value(digits_of(n)) == digits_value(digits_of(n).drop_last()) * 10
            + digit_value(digits_of(n).last()));
        assert(digit_value(digit_char((n % 10) as int)) == n % 10);
        assert(n == (n / 10) * 10 + n % 10);
    } else {
        assert(digits_of(n).drop_last() =~= Seq::<char>::empty());
        assert(digits_value(Seq::<char>::empty()) == 0);
        assert(digit_value(digit_char(n as int)) == n);
    }
}

/// Leading zeros do not change the value of a digit run.
pub proof fn lemma_leading_zeros(k: nat, d: Seq<char>)
    ensures
        digits_value(zeros(k) + d) == digits_value(d),
    decreases d.len(),
{
    if d.len() == 0 {
        assert(zeros(k) + d =~= zeros(k));
        lemma_zeros_value(k);
    } else {
        assert((zeros(k) + d).drop_last() =~= zeros(k) + d.drop_last());
        lemma_leading_zeros(k, d.drop_last());
    }
}

proof fn lemma_zeros_value(k: nat)
    ensures
        digits_value(zeros(k)) == 0,
    decreases k,
{
    if k > 0 {
        assert(zeros(k).drop_last() =~= zeros((k - 1) as nat));
        lemma_zeros_value((k - 1) as nat);
    }
}

/// A zero-padded number reads back as the number, and holds only digits.
pub proof fn lemma_zero_padded_value(n: nat, w: nat)
    ensures
        digits_value(zero_padded(n, w)) == n,
        all_digits(zero_padded(n, w)),
        zero_padded(n, w).len() > 0,
{
    lemma_digits_value(n);
    lemma_digits_are_digits(n);
    lemma_digits_len(n);
    let d = digits_of(n);
    if d.len() < w {
        lemma_leading_zeros((w - d.len()) as nat, d);
        let p = zeros((w - d.len()) as nat) + d;
        assert forall|i: int| 0 <= i < p.len() implies is_digit(#[trigger] p[i]) by {
            if i >= w - d.len() {
                assert(p[i] == d[i - (w - d.len())]);
            }
        }
    }
}

} // verus!
