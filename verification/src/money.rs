//! Money and quantities.  They are stored as `rust_decimal` canonical text, and
//! every sum is done on `rust_decimal::Decimal` values in the application, never
//! as SQL `SUM` over text.
//!
//! A `Decimal` is held here as its mantissa, scale and sign flag (`Amount`); the
//! value is `mantissa / 10^scale`.  Parsing, addition and display are calls into
//! `rust_decimal`.
use vstd::prelude::*;
use crate::error::{AppError, AppErrorView, ErrorCode};
use crate::numbering::{zero_padded, zeros};

verus! {

/// A `rust_decimal::Decimal` as its parts: the value is `mantissa / 10^scale`;
/// `negative` is the sign flag, which a zero may carry too (negative zero, which
/// prints as `-0`).
#[derive(Clone, Copy)]
pub struct Amount {
    pub mantissa: i128,
    pub scale: u32,
    pub negative: bool,
}

/// The largest mantissa magnitude a `Decimal` holds (96 bits).
pub open spec fn max_mantissa() -> int {
    0xFFFF_FFFF_FFFF_FFFF_FFFF_FFFF
}

/// The parts of every `Decimal`: a 96-bit mantissa, a scale of at most 28, and a
/// sign flag that agrees with the mantissa unless it is zero.
pub open spec fn amount_wf(a: Amount) -> bool {
    &&& a.scale <= 28
    &&& -max_mantissa() <= a.mantissa <= max_mantissa()
    &&& a.mantissa != 0 ==> (a.negative <==> a.mantissa < 0)
}

/// `10^n`.
pub open spec fn pow10(n: nat) -> int
    decreases n,
{
    if n == 0 {
        1
    } else {
        10 * pow10((n - 1) as nat)
    }
}

/// The value of `a` in units of `10^-28`: exact for every well-formed amount.
pub open spec fn value28(a: Amount) -> int {
    a.mantissa * pow10((28 - a.scale) as nat)
}

/// The larger of two scales.
pub open spec fn max_scale(a: Amount, b: Amount) -> nat {
    if a.scale >= b.scale {
        a.scale as nat
    } else {
        b.scale as nat
    }
}

/// The exact sum of `a` and `b` as a mantissa at the larger of their scales.
pub open spec fn aligned_sum(a: Amount, b: Amount) -> int {
    a.mantissa * pow10((max_scale(a, b) - a.scale) as nat) + b.mantissa * pow10(
        (max_scale(a, b) - b.scale) as nat,
    )
}

/// Zero, with scale 0 (`Decimal::ZERO`).
pub open spec fn zero_amount() -> Amount {
    Amount { mantissa: 0, scale: 0, negative: false }
}

/// The parts of an optional decimal.
pub open spec fn amount_of(p: Option<(i128, u32, bool)>) -> Option<Amount> {
    match p {
        Some((m, s, n)) => Some(Amount { mantissa: m, scale: s, negative: n }),
        None => None,
    }
}

/// What `Decimal::from_str` makes of a text, as mantissa, scale and sign flag;
/// `None` when it refuses the text.
pub uninterp spec fn decimal_from_str(text: Seq<char>) -> Option<(i128, u32, bool)>;

/// What `Decimal::checked_add` returns for two decimals given by their parts.
pub uninterp spec fn decimal_checked_add(m1: i128, s1: u32, n1: bool, m2: i128, s2: u32, n2: bool) -> Option<
    (i128, u32, bool),
>;

/// The digits of the magnitude `n` of a mantissa, left-padded with zeros to at
/// least `scale` digits; a zero mantissa has no digits of its own.
pub open spec fn mantissa_digits(n: nat, scale: nat) -> Seq<char> {
    if n == 0 {
        zeros(scale)
    } else {
        zero_padded(n, scale)
    }
}

/// The text of `Decimal::to_string` for a decimal given by its parts: `-` when the
/// sign flag is set, then the digits of the mantissa's magnitude with a point
/// before the last `scale` of them (a lone `0` before the point when no digit is
/// left for it; `0` for a zero with scale 0).
pub open spec fn decimal_display(mantissa: i128, scale: u32, negative: bool) -> Seq<char> {
    let n: nat = if mantissa < 0 { (-mantissa) as nat } else { mantissa as nat };
    let d = mantissa_digits(n, scale as nat);
    let whole: int = d.len() - scale;
    let body = if scale == 0 {
        if d.len() == 0 { "0"@ } else { d }
    } else {
        (if whole == 0 { "0"@ } else { d.subrange(0, whole) }) + "."@ + d.subrange(whole, d.len() as int)
    };
    (if negative { "-"@ } else { ""@ }) + body
}

/// The amount a text parses to, if any.
pub open spec fn parsed_amount(text: Seq<char>) -> Option<Amount> {
    amount_of(decimal_from_str(text))
}

/// The result of `checked_add` on two amounts.
pub open spec fn checked_sum(a: Amount, b: Amount) -> Option<Amount> {
    amount_of(decimal_checked_add(a.mantissa, a.scale, a.negative, b.mantissa, b.scale, b.negative))
}

/// The canonical text of an amount.
pub open spec fn amount_text(a: Amount) -> Seq<char> {
    decimal_display(a.mantissa, a.scale, a.negative)
}

/// The value a stored text reads back as (in units of `10^-28`), if it parses.
pub open spec fn stored_value(text: Seq<char>) -> Option<int> {
    match parsed_amount(text) {
        Some(a) => Some(value28(a)),
        None => None,
    }
}

/// `Decimal::from_str`.  The result is named by `decimal_from_str`; every
/// `Decimal` it gives has a 96-bit mantissa and a scale of at most 28.
/// Which texts it accepts and how it rounds long fractions is not stated.
#[verifier::external_body]
pub(crate) fn parse_decimal(text: &str) -> (r: Option<Amount>)
    ensures
        r == amount_of(decimal_from_str(text@)),
        r matches Some(a) ==> amount_wf(a),
{
    match <rust_decimal::Decimal as core::str::FromStr>::from_str(text) {
        Ok(d) => Some(Amount { mantissa: d.mantissa(), scale: d.scale(), negative: d.is_sign_negative() }),
        Err(_) => None,
    }
}

/// `Decimal::checked_add` (the two operands are rebuilt with
/// `Decimal::from_i128_with_scale`, which accepts every well-formed amount, and
/// `set_sign_negative`).
/// The result is named by `decimal_checked_add`.  When the exact sum fits in 96
/// bits at the larger of the two scales, the addition succeeds and is exact.
/// When it does not, the result (rounded, or `None` on overflow) is not stated.
#[verifier::external_body]
pub(crate) fn add_decimal(a: Amount, b: Amount) -> (r: Option<Amount>)
    requires
        amount_wf(a),
        amount_wf(b),
    ensures
        r == amount_of(decimal_checked_add(a.mantissa, a.scale, a.negative, b.mantissa, b.scale, b.negative)),
        r matches Some(s) ==> amount_wf(s),
        -max_mantissa() <= aligned_sum(a, b) <= max_mantissa() ==> r is Some && value28(r->0)
            == value28(a) + value28(b),
{
    let mut x = rust_decimal::Decimal::from_i128_with_scale(a.mantissa, a.scale);
    x.set_sign_negative(a.negative);
    let mut y = rust_decimal::Decimal::from_i128_with_scale(b.mantissa, b.scale);
    y.set_sign_negative(b.negative);
    match x.checked_add(y) {
        Some(d) => Some(Amount { mantissa: d.mantissa(), scale: d.scale(), negative: d.is_sign_negative() }),
        None => None,
    }
}

/// `Decimal::to_string` (`Display`): the text `decimal_display` states.  Read back
/// with `Decimal::from_str` it gives the same mantissa and scale; the sign flag of
/// a zero is not kept (`from_str` builds its result with `from_parts`, which clears
/// it), so `-0` reads back as `0`.
#[verifier::external_body]
pub(crate) fn decimal_text(a: Amount) -> (r: String)
    requires
        amount_wf(a),
    ensures
        r@ == decimal_display(a.mantissa, a.scale, a.negative),
        decimal_from_str(r@) == Some((a.mantissa, a.scale, a.mantissa < 0)),
{
    let mut d = rust_decimal::Decimal::from_i128_with_scale(a.mantissa, a.scale);
    d.set_sign_negative(a.negative);
    d.to_string()
}

/// `Decimal::ZERO`.
pub fn zero() -> (r: Amount)
    ensures
        r == zero_amount(),
        amount_wf(r),
{
    Amount { mantissa: 0, scale: 0, negative: false }
}

/// Negation (`-d`): the sign flag and the sign of the mantissa flip, the scale
/// stays (so the negation of a zero is a negative zero).
pub fn negate(a: Amount) -> (r: Amount)
    requires
        amount_wf(a),
    ensures
        r == (Amount { mantissa: (-a.mantissa) as i128, scale: a.scale, negative: !a.negative }),
        amount_wf(r),
        value28(r) == -value28(a),
{
    proof {
        vstd::arithmetic::mul::lemma_mul_unary_negation(a.mantissa as int, pow10((28 - a.scale) as nat));
    }
    Amount { mantissa: -a.mantissa, scale: a.scale, negative: !a.negative }
}

/// The message of an amount that does not parse.
pub open spec fn invalid_amount_message() -> Seq<char> {
    "金额格式错误"@
}

/// Parses stored money or quantity text; a text that `Decimal` refuses is a
/// validation error.
pub fn parse_amount(text: &str) -> (r: Result<Amount, AppError>)
    ensures
        r matches Ok(a) ==> parsed_amount(text@) == Some(a) && amount_wf(a),
        r matches Err(e) ==> parsed_amount(text@) is None && e@ == AppErrorView::Coded(
            ErrorCode::Validation,
            invalid_amount_message(),
        ),
{
    match parse_decimal(text) {
        Some(a) => Ok(a),
        None => Err(AppError::new(ErrorCode::Validation, "金额格式错误")),
    }
}

/// Why a sum of stored amounts failed.
pub enum AmountError {
    /// A stored text is not a decimal.
    Invalid(AppError),
    /// A `+` of `Decimal` overflowed (the `+=` of the accumulation panics there).
    Overflow,
}

/// How a fold of `+=` over stored texts ends.
pub enum SumOutcome {
    Total(Amount),
    InvalidText,
    Overflow,
}

/// The outcome of `acc = ZERO; for t in texts[..n] { acc += parse_amount(t)? }`.
pub open spec fn sum_texts(texts: Seq<Seq<char>>, n: int) -> SumOutcome
    decreases n,
{
    if n <= 0 {
        SumOutcome::Total(zero_amount())
    } else {
        match sum_texts(texts, n - 1) {
            SumOutcome::Total(acc) => match parsed_amount(texts[n - 1]) {
                None => SumOutcome::InvalidText,
                Some(x) => match checked_sum(acc, x) {
                    Some(t) => SumOutcome::Total(t),
                    None => SumOutcome::Overflow,
                },
            },
            other => other,
        }
    }
}

/// Once a fold has failed, later texts do not change how it ends.
pub proof fn lemma_sum_texts_stays(texts: Seq<Seq<char>>, k: int, n: int)
    requires
        0 <= k <= n,
        !(sum_texts(texts, k) is Total),
    ensures
        sum_texts(texts, n) == sum_texts(texts, k),
    decreases n - k,
{
    if n > k {
        lemma_sum_texts_stays(texts, k, n - 1);
    }
}

/// The exact sum of the values of the first `n` texts (those that parse).
pub open spec fn values_sum(texts: Seq<Seq<char>>, n: int) -> int
    decreases n,
{
    if n <= 0 {
        0
    } else {
        values_sum(texts, n - 1) + match parsed_amount(texts[n - 1]) {
            Some(x) => value28(x),
            None => 0,
        }
    }
}

/// Every addition of the fold over the first `n` texts had its exact result within
/// `Decimal`'s 96 bits at the larger scale of its operands.
pub open spec fn steps_fit(texts: Seq<Seq<char>>, n: int) -> bool
    decreases n,
{
    if n <= 0 {
        true
    } else {
        steps_fit(texts, n - 1) && match sum_texts(texts, n - 1) {
            SumOutcome::Total(acc) => match parsed_amount(texts[n - 1]) {
                Some(x) => -max_mantissa() <= aligned_sum(acc, x) <= max_mantissa(),
                None => true,
            },
            _ => true,
        }
    }
}

proof fn lemma_steps_fit_prefix(texts: Seq<Seq<char>>, k: int, n: int)
    requires
        0 <= k <= n,
        steps_fit(texts, n),
    ensures
        steps_fit(texts, k),
    decreases n - k,
{
    if n > k {
        lemma_steps_fit_prefix(texts, k, n - 1);
    }
}

/// The views of stored texts.
pub open spec fn texts_view(rows: Seq<String>) -> Seq<Seq<char>> {
    rows.map_values(|s: String| s@)
}

/// The sum of stored amount texts, in order, as the accumulation loops of the
/// balance and reservation queries compute it: the first text that does not parse
/// is the error; an addition that overflows is `Overflow`.  Where every addition kept
/// its exact result within `Decimal`'s 96 bits, the sum is exact.
pub fn sum_amount_texts(rows: &Vec<String>) -> (r: Result<Amount, AmountError>)
    ensures
        match sum_texts(texts_view(rows@), rows@.len() as int) {
            SumOutcome::Total(t) => r matches Ok(a) && a == t && amount_wf(a),
            SumOutcome::InvalidText => r matches Err(AmountError::Invalid(e)) && e@
                == AppErrorView::Coded(ErrorCode::Validation, invalid_amount_message()),
            SumOutcome::Overflow => r matches Err(AmountError::Overflow),
        },
        steps_fit(texts_view(rows@), rows@.len() as int) ==> match r {
            Ok(a) => value28(a) == values_sum(texts_view(rows@), rows@.len() as int),
            Err(e) => e is Invalid,
        },
{
    let ghost tv = texts_view(rows@);
    let mut acc = zero();
    let mut i: usize = 0;
    while i < rows.len()
        invariant
            i <= rows.len(),
            tv == texts_view(rows@),
            sum_texts(tv, i as int) == SumOutcome::Total(acc),
            amount_wf(acc),
            steps_fit(tv, i as int) ==> value28(acc) == values_sum(tv, i as int),
        decreases rows.len() - i,
    {
        let x = match parse_amount(rows[i].as_str()) {
            Ok(x) => x,
            Err(e) => {
                proof {
                    assert(tv[i as int] == rows@[i as int]@);
                    lemma_sum_texts_stays(tv, i as int + 1, rows@.len() as int);
                }
                return Err(AmountError::Invalid(e));
            },
        };
        proof {
            assert(tv[i as int] == rows@[i as int]@);
        }
        match add_decimal(acc, x) {
            Some(t) => {
                acc = t;
            },
            None => {
                proof {
                    lemma_sum_texts_stays(tv, i as int + 1, rows@.len() as int);
                    if steps_fit(tv, rows@.len() as int) {
                        lemma_steps_fit_prefix(tv, i as int + 1, rows@.len() as int);
                    }
                }
                return Err(AmountError::Overflow);
            },
        }
        i = i + 1;
    }
    Ok(acc)
}

/// The balance stored for one item at one location: zero when there is no row,
/// else the stored text parsed.
pub fn balance_or_zero(stored: Option<&str>) -> (r: Result<Amount, AppError>)
    ensures
        stored is None ==> (r matches Ok(a) && a == zero_amount()),
        stored matches Some(t) ==> match parsed_amount(t@) {
            Some(a) => r matches Ok(b) && b == a,
            None => r matches Err(e) && e@ == AppErrorView::Coded(
                ErrorCode::Validation,
                invalid_amount_message(),
            ),
        },
        r matches Ok(a) ==> amount_wf(a),
{
    match stored {
        Some(t) => parse_amount(t),
        None => Ok(zero()),
    }
}

/// The new balance of an upsert by `delta`: the stored balance plus `delta`, or
/// `delta` itself when nothing is stored yet.
pub fn incremented_quantity(stored: Option<&str>, delta: Amount) -> (r: Result<Amount, AmountError>)
    requires
        amount_wf(delta),
    ensures
        stored is None ==> (r matches Ok(a) && a == delta),
        stored matches Some(t) ==> match parsed_amount(t@) {
            None => r matches Err(AmountError::Invalid(e)) && e@ == AppErrorView::Coded(
                ErrorCode::Validation,
                invalid_amount_message(),
            ),
            Some(cur) => match checked_sum(cur, delta) {
                Some(t) => r matches Ok(a) && a == t,
                None => r matches Err(AmountError::Overflow),
            },
        },
        stored matches Some(t) ==> match parsed_amount(t@) {
            Some(cur) => -max_mantissa() <= aligned_sum(cur, delta) <= max_mantissa() ==> (r matches Ok(
                a,
            ) && value28(a) == value28(cur) + value28(delta)),
            None => true,
        },
        r matches Ok(a) ==> amount_wf(a),
{
    match stored {
        None => Ok(delta),
        Some(t) => {
            let cur = match parse_amount(t) {
                Ok(c) => c,
                Err(e) => {
                    return Err(AmountError::Invalid(e));
                },
            };
            match add_decimal(cur, delta) {
                Some(s) => Ok(s),
                None => Err(AmountError::Overflow),
            }
        },
    }
}

/// The new balance of a decrement by `delta` (given positive): an increment by `-delta`.
pub fn decremented_quantity(stored: Option<&str>, delta: Amount) -> (r: Result<Amount, AmountError>)
    requires
        amount_wf(delta),
    ensures
        stored is None ==> (r matches Ok(a) && a == (Amount {
            mantissa: (-delta.mantissa) as i128,
            scale: delta.scale,
            negative: !delta.negative,
        })),
        stored matches Some(t) ==> match parsed_amount(t@) {
            None => r matches Err(AmountError::Invalid(_)),
            Some(cur) => match checked_sum(cur, Amount { mantissa: (-delta.mantissa) as i128, scale: delta.scale, negative: !delta.negative }) {
                Some(t) => r matches Ok(a) && a == t,
                None => r matches Err(AmountError::Overflow),
            },
        },
        stored matches Some(t) ==> match parsed_amount(t@) {
            Some(cur) => -max_mantissa() <= aligned_sum(
                cur,
                Amount { mantissa: (-delta.mantissa) as i128, scale: delta.scale, negative: !delta.negative },
            ) <= max_mantissa() ==> (r matches Ok(a) && value28(a) == value28(cur) - value28(delta)),
            None => true,
        },
{
    let neg = negate(delta);
    incremented_quantity(stored, neg)
}

/// An optional stored text, as a sequence of characters.
pub open spec fn opt_text(stored: Option<&str>) -> Option<Seq<char>> {
    match stored {
        Some(t) => Some(t@),
        None => None,
    }
}

/// `-a`, as `Neg` builds it: mantissa and sign flag flipped, scale kept.
pub open spec fn negated(a: Amount) -> Amount {
    Amount { mantissa: (-a.mantissa) as i128, scale: a.scale, negative: !a.negative }
}

/// How an upsert by `delta` of the stored quantity ends: `delta` itself when
/// nothing is stored, else the stored text parsed and `delta` added.
pub open spec fn upsert_outcome(stored: Option<Seq<char>>, delta: Amount) -> SumOutcome {
    match stored {
        None => SumOutcome::Total(delta),
        Some(t) => match parsed_amount(t) {
            None => SumOutcome::InvalidText,
            Some(cur) => match checked_sum(cur, delta) {
                Some(s) => SumOutcome::Total(s),
                None => SumOutcome::Overflow,
            },
        },
    }
}

/// The upsert by `delta` reads a decimal and its exact sum with `delta` fits in
/// `Decimal`'s 96 bits at the larger scale (always, when nothing is stored).
pub open spec fn upsert_fits(stored: Option<Seq<char>>, delta: Amount) -> bool {
    match stored {
        None => true,
        Some(t) => match parsed_amount(t) {
            Some(cur) => -max_mantissa() <= aligned_sum(cur, delta) <= max_mantissa(),
            None => false,
        },
    }
}

/// The value stored before an upsert: zero when there is no row.
pub open spec fn stored_base(stored: Option<Seq<char>>) -> int {
    match stored {
        None => 0,
        Some(t) => match stored_value(t) {
            Some(v) => v,
            None => 0,
        },
    }
}

/// The text an upsert by `delta` writes back (`new_qty.to_string()`): the stored
/// quantity plus `delta`, or `delta` when nothing is stored.  Where the sum fits,
/// the text reads back as exactly the old value plus `delta`.
pub fn incremented_text(stored: Option<&str>, delta: Amount) -> (r: Result<String, AmountError>)
    requires
        amount_wf(delta),
    ensures
        match upsert_outcome(opt_text(stored), delta) {
            SumOutcome::Total(a) => r matches Ok(t) && t@ == amount_text(a),
            SumOutcome::InvalidText => r matches Err(AmountError::Invalid(e)) && e@
                == AppErrorView::Coded(ErrorCode::Validation, invalid_amount_message()),
            SumOutcome::Overflow => r matches Err(AmountError::Overflow),
        },
        upsert_fits(opt_text(stored), delta) ==> (r matches Ok(t) && stored_value(t@) == Some(
            stored_base(opt_text(stored)) + value28(delta),
        )),
{
    let a = match incremented_quantity(stored, delta) {
        Ok(a) => a,
        Err(e) => {
            return Err(e);
        },
    };
    let t = decimal_text(a);
    proof {
        assert(parsed_amount(t@) == Some(Amount { mantissa: a.mantissa, scale: a.scale, negative: a.mantissa < 0 }));
    }
    Ok(t)
}

/// The text a decrement by `delta` (given positive) writes back: an upsert by
/// `-delta`.  Where the sum fits, the text reads back as exactly the old value
/// less `delta`.
pub fn decremented_text(stored: Option<&str>, delta: Amount) -> (r: Result<String, AmountError>)
    requires
        amount_wf(delta),
    ensures
        match upsert_outcome(opt_text(stored), negated(delta)) {
            SumOutcome::Total(a) => r matches Ok(t) && t@ == amount_text(a),
            SumOutcome::InvalidText => r matches Err(AmountError::Invalid(e)) && e@
                == AppErrorView::Coded(ErrorCode::Validation, invalid_amount_message()),
            SumOutcome::Overflow => r matches Err(AmountError::Overflow),
        },
        upsert_fits(opt_text(stored), negated(delta)) ==> (r matches Ok(t) && stored_value(t@) == Some(
            stored_base(opt_text(stored)) - value28(delta),
        )),
{
    let neg = negate(delta);
    incremented_text(stored, neg)
}

/// Decrementing by `delta` the quantity that an increment by `delta` wrote gives
/// back the value stored before the increment: `t1` is what `incremented_text`
/// wrote over `stored`, `t2` what `decremented_text` then wrote over `t1`, each as
/// its contract states where its sum fits.
pub proof fn lemma_decrement_restores(stored: Option<Seq<char>>, delta: Amount, t1: Seq<char>, t2: Seq<char>)
    requires
        amount_wf(delta),
        stored_value(t1) == Some(stored_base(stored) + value28(delta)),
        stored_value(t2) == Some(stored_base(Some(t1)) - value28(delta)),
    ensures
        stored_value(t2) == Some(stored_base(stored)),
{
}

} // verus!
