//! Character-level text helpers shared by the SQL builders and report formatting.
//!
//! Text is reasoned about through its `Seq<char>` view.  The functions here either
//! are small verified loops or thin wrappers around single std operations that
//! vstd does not specify.
use vstd::prelude::*;

verus! {

// ---------------------------------------------------------------------------
// Counting characters
// ---------------------------------------------------------------------------

/// Number of occurrences of `c` among the first `n` characters of `s`.
pub open spec fn count_upto(s: Seq<char>, c: char, n: int) -> nat
    decreases n,
{
    if n <= 0 {
        0
    } else {
        (if s[n - 1] == c { 1nat } else { 0nat }) + count_upto(s, c, n - 1)
    }
}

/// Number of occurrences of `c` in `s`.
pub open spec fn count_char(s: Seq<char>, c: char) -> nat {
    count_upto(s, c, s.len() as int)
}

/// Only the first `n` characters matter to `count_upto`.
pub proof fn lemma_count_upto_prefix(a: Seq<char>, b: Seq<char>, c: char, n: int)
    requires
        0 <= n <= a.len(),
        forall|i: int| 0 <= i < n ==> a[i] == b[i],
    ensures
        count_upto(a, c, n) == count_upto(b, c, n),
    decreases n,
{
    if n > 0 {
        lemma_count_upto_prefix(a, b, c, n - 1);
    }
}

/// Counting is additive over concatenation.
pub proof fn lemma_count_concat(a: Seq<char>, b: Seq<char>, c: char)
    ensures
        count_char(a + b, c) == count_char(a, c) + count_char(b, c),
{
    lemma_count_concat_upto(a, b, c, b.len() as int);
}

proof fn lemma_count_concat_upto(a: Seq<char>, b: Seq<char>, c: char, k: int)
    requires
        0 <= k <= b.len(),
    ensures
        count_upto(a + b, c, a.len() + k) == count_char(a, c) + count_upto(b, c, k),
    decreases k,
{
    if k == 0 {
        lemma_count_upto_prefix(a + b, a, c, a.len() as int);
    } else {
        lemma_count_concat_upto(a, b, c, k - 1);
        assert((a + b)[a.len() + k - 1] == b[k - 1]);
    }
}

// ---------------------------------------------------------------------------
// Joining
// ---------------------------------------------------------------------------

/// `parts` joined with `sep` between neighbours (std's `join` on string slices).
pub open spec fn join_with(parts: Seq<Seq<char>>, sep: Seq<char>) -> Seq<char>
    decreases parts.len(),
{
    if parts.len() == 0 {
        Seq::empty()
    } else if parts.len() == 1 {
        parts[0]
    } else {
        join_with(parts.drop_last(), sep) + sep + parts.last()
    }
}

/// Placeholder count of a join: the parts' counts plus the separators' counts.
pub open spec fn sum_counts(parts: Seq<Seq<char>>, c: char) -> nat
    decreases parts.len(),
{
    if parts.len() == 0 {
        0
    } else {
        sum_counts(parts.drop_last(), c) + count_char(parts.last(), c)
    }
}

/// When the separator holds no `c`, a join holds exactly the parts' occurrences of `c`.
pub proof fn lemma_count_join(parts: Seq<Seq<char>>, sep: Seq<char>, c: char)
    requires
        count_char(sep, c) == 0,
    ensures
        count_char(join_with(parts, sep), c) == sum_counts(parts, c),
    decreases parts.len(),
{
    if parts.len() == 0 {
    } else if parts.len() == 1 {
        assert(parts.drop_last().len() == 0);
        assert(sum_counts(parts.drop_last(), c) == 0);
        assert(parts.last() == parts[0]);
    } else {
        lemma_count_join(parts.drop_last(), sep, c);
        lemma_count_concat(join_with(parts.drop_last(), sep), sep, c);
        lemma_count_concat(join_with(parts.drop_last(), sep) + sep, parts.last(), c);
    }
}

/// Appends `parts` joined by `sep` to `out`.
pub fn append_joined(out: &mut String, parts: &Vec<&str>, sep: &str)
    ensures
        final(out)@ == old(out)@ + join_with(parts@.map_values(|p: &str| p@), sep@),
{
    let ghost views = parts@.map_values(|p: &str| p@);
    let ghost start = out@;
    let mut i: usize = 0;
    while i < parts.len()
        invariant
            i <= parts.len(),
            views == parts@.map_values(|p: &str| p@),
            out@ == start + join_with(views.take(i as int), sep@),
        decreases parts.len() - i,
    {
        proof {
            assert(views.take(i as int + 1).drop_last() =~= views.take(i as int));
        }
        if i > 0 {
            out.append(sep);
        }
        out.append(parts[i]);
        proof {
            if i == 0 {
                assert(views.take(1).len() == 1);
                assert(out@ =~= start + join_with(views.take(1), sep@));
            } else {
                assert(out@ =~= start + join_with(views.take(i as int + 1), sep@));
            }
        }
        i = i + 1;
    }
    proof {
        assert(views.take(parts.len() as int) =~= views);
    }
}

/// The views of owned texts.
pub open spec fn strings_view(parts: Seq<String>) -> Seq<Seq<char>> {
    parts.map_values(|p: String| p@)
}

/// Appends the owned `parts` joined by `sep` to `out`.
pub fn append_joined_strings(out: &mut String, parts: &Vec<String>, sep: &str)
    ensures
        final(out)@ == old(out)@ + join_with(strings_view(parts@), sep@),
{
    let ghost views = strings_view(parts@);
    let ghost start = out@;
    let mut i: usize = 0;
    while i < parts.len()
        invariant
            i <= parts.len(),
            views == strings_view(parts@),
            out@ == start + join_with(views.take(i as int), sep@),
        decreases parts.len() - i,
    {
        proof {
            assert(views.take(i as int + 1).drop_last() =~= views.take(i as int));
        }
        if i > 0 {
            out.append(sep);
        }
        out.append(parts[i].as_str());
        proof {
            if i == 0 {
                assert(views.take(1).len() == 1);
                assert(out@ =~= start + join_with(views.take(1), sep@));
            } else {
                assert(out@ =~= start + join_with(views.take(i as int + 1), sep@));
            }
        }
        i = i + 1;
    }
    proof {
        assert(views.take(parts.len() as int) =~= views);
    }
}

// ---------------------------------------------------------------------------
// String equality, and the one std operation that vstd leaves unspecified
// ---------------------------------------------------------------------------

/// `==` on string slices: true exactly when the two slices hold the same
/// characters, compared one by one.
pub(crate) fn str_eq(a: &str, b: &str) -> (r: bool)
    ensures
        r == (a@ == b@),
{
    let la = a.unicode_len();
    let lb = b.unicode_len();
    if la != lb {
        return false;
    }
    let mut i: usize = 0;
    while i < la
        invariant
            la == a@.len(),
            lb == b@.len(),
            la == lb,
            i <= la,
            forall|k: int| 0 <= k < i ==> a@[k] == b@[k],
        decreases la - i,
    {
        if a.get_char(i) != b.get_char(i) {
            return false;
        }
        i = i + 1;
    }
    proof {
        assert(a@ =~= b@);
    }
    true
}

/// `String::push`: appends one character.
#[verifier::external_body]
pub(crate) fn push_char(s: &mut String, c: char)
    ensures
        final(s)@ == old(s)@.push(c),
{
    s.push(c)
}

/// Copies a string slice into an owned `String`.
pub fn owned(s: &str) -> (r: String)
    ensures
        r@ == s@,
{
    String::from_str(s)
}

// ---------------------------------------------------------------------------
// SQL text literals
// ---------------------------------------------------------------------------

/// A character as it stands inside a single-quoted SQL literal: a quote is doubled.
pub open spec fn escape_char(ch: char) -> Seq<char> {
    if ch == '\'' {
        seq!['\'', '\'']
    } else {
        seq![ch]
    }
}

/// `s` with every single quote doubled (the body of a SQL string literal).
pub open spec fn escape_quotes(s: Seq<char>) -> Seq<char>
    decreases s.len(),
{
    if s.len() == 0 {
        Seq::empty()
    } else {
        escape_quotes(s.drop_last()) + escape_char(s.last())
    }
}

/// Reads the body of a SQL string literal back: a doubled quote stands for one quote.
pub open spec fn unescape_quotes(t: Seq<char>) -> Seq<char>
    decreases t.len(),
{
    if t.len() == 0 {
        Seq::empty()
    } else if t[0] == '\'' && t.len() >= 2 && t[1] == '\'' {
        seq!['\''] + unescape_quotes(t.subrange(2, t.len() as int))
    } else {
        seq![t[0]] + unescape_quotes(t.subrange(1, t.len() as int))
    }
}

/// A literal body is well formed when every quote in it is part of a doubled pair.
pub open spec fn quotes_paired(t: Seq<char>) -> bool
    decreases t.len(),
{
    if t.len() == 0 {
        true
    } else if t[0] == '\'' {
        t.len() >= 2 && t[1] == '\'' && quotes_paired(t.subrange(2, t.len() as int))
    } else {
        quotes_paired(t.subrange(1, t.len() as int))
    }
}

proof fn lemma_escape_concat(a: Seq<char>, b: Seq<char>)
    ensures
        escape_quotes(a + b) == escape_quotes(a) + escape_quotes(b),
    decreases b.len(),
{
    if b.len() == 0 {
        assert(a + b =~= a);
        assert(escape_quotes(a) + escape_quotes(b) =~= escape_quotes(a));
    } else {
        lemma_escape_concat(a, b.drop_last());
        assert((a + b).drop_last() =~= a + b.drop_last());
        assert((a + b).last() == b.last());
    }
}

proof fn lemma_escape_front(s: Seq<char>)
    requires
        s.len() > 0,
    ensures
        escape_quotes(s) == escape_char(s[0]) + escape_quotes(s.subrange(1, s.len() as int)),
{
    let head = seq![s[0]];
    let rest = s.subrange(1, s.len() as int);
    assert(s =~= head + rest);
    lemma_escape_concat(head, rest);
    assert(head.drop_last() =~= Seq::<char>::empty());
    assert(head.last() == s[0]);
    assert(escape_quotes(head.drop_last()).len() == 0);
    assert(escape_quotes(head) =~= escape_char(s[0]));
}

/// Escaping loses nothing: reading an escaped literal back gives the original text,
/// and the escaped text has no unpaired quote that could end the literal early.
pub proof fn lemma_escape_roundtrip(s: Seq<char>)
    ensures
        unescape_quotes(escape_quotes(s)) == s,
        quotes_paired(escape_quotes(s)),
    decreases s.len(),
{
    if s.len() > 0 {
        let rest = s.subrange(1, s.len() as int);
        lemma_escape_front(s);
        lemma_escape_roundtrip(rest);
        let t = escape_quotes(s);
        let er = escape_quotes(rest);
        if s[0] == '\'' {
            assert(t =~= seq!['\'', '\''] + er);
            assert(t.subrange(2, t.len() as int) =~= er);
        } else {
            assert(t =~= seq![s[0]] + er);
            assert(t.subrange(1, t.len() as int) =~= er);
        }
        assert(s =~= seq![s[0]] + rest);
    }
}

/// `s.replace('\'', "''")`: the text made safe to stand between single quotes.
pub fn escape_sql_literal(s: &str) -> (r: String)
    ensures
        r@ == escape_quotes(s@),
{
    let n = s.unicode_len();
    let mut out = String::new();
    let mut i: usize = 0;
    while i < n
        invariant
            n == s@.len(),
            i <= n,
            out@ == escape_quotes(s@.take(i as int)),
        decreases n - i,
    {
        let ch = s.get_char(i);
        proof {
            assert(s@.take(i as int + 1).drop_last() =~= s@.take(i as int));
            assert(s@.take(i as int + 1).last() == ch);
        }
        if ch == '\'' {
            push_char(&mut out, '\'');
            push_char(&mut out, '\'');
        } else {
            push_char(&mut out, ch);
        }
        proof {
            assert(out@ =~= escape_quotes(s@.take(i as int + 1)));
        }
        i = i + 1;
    }
    proof {
        assert(s@.take(n as int) =~= s@);
    }
    out
}

/// `format!("%{}%", q)`: a LIKE pattern matching any text that contains `q`.
pub fn like_contains(q: &str) -> (r: String)
    ensures
        r@ == seq!['%'] + q@ + seq!['%'],
{
    let mut out = String::new();
    push_char(&mut out, '%');
    out.append(q);
    push_char(&mut out, '%');
    proof {
        assert(out@ =~= seq!['%'] + q@ + seq!['%']);
    }
    out
}

/// `format!("{}%", p)`: a LIKE pattern matching any text that starts with `p`.
pub fn like_prefix(p: &str) -> (r: String)
    ensures
        r@ == p@ + seq!['%'],
{
    let mut out = String::from_str(p);
    push_char(&mut out, '%');
    out
}

} // verus!

verus! {

// ---------------------------------------------------------------------------
// Lexicographic order of texts (the order of `String`'s `Ord`)
// ---------------------------------------------------------------------------

/// `a` sorts before `b` when both agree before position `i`: decided at the first
/// differing character, or by length when one is a prefix of the other.
pub open spec fn text_lt_from(a: Seq<char>, b: Seq<char>, i: int) -> bool
    decreases a.len() - i,
{
    if i < 0 || i >= a.len() {
        0 <= i < b.len()
    } else if i >= b.len() {
        false
    } else if a[i] != b[i] {
        (a[i] as int) < (b[i] as int)
    } else {
        text_lt_from(a, b, i + 1)
    }
}

/// `a` sorts strictly before `b` in the order of `String` (code point by code point).
pub open spec fn text_before(a: Seq<char>, b: Seq<char>) -> bool {
    text_lt_from(a, b, 0)
}

proof fn lemma_text_lt_irreflexive(a: Seq<char>, i: int)
    requires
        0 <= i,
    ensures
        !text_lt_from(a, a, i),
    decreases a.len() - i,
{
    if i < a.len() {
        lemma_text_lt_irreflexive(a, i + 1);
    }
}

proof fn lemma_text_lt_transitive(a: Seq<char>, b: Seq<char>, c: Seq<char>, i: int)
    requires
        0 <= i,
        text_lt_from(a, b, i),
        text_lt_from(b, c, i),
    ensures
        text_lt_from(a, c, i),
    decreases a.len() - i,
{
    if i < a.len() && i < b.len() && i < c.len() && a[i] == b[i] && b[i] == c[i] {
        lemma_text_lt_transitive(a, b, c, i + 1);
    }
}

proof fn lemma_text_lt_total(a: Seq<char>, b: Seq<char>, i: int)
    requires
        0 <= i <= a.len(),
        i <= b.len(),
        a.subrange(0, i) == b.subrange(0, i),
        !text_lt_from(a, b, i),
        !text_lt_from(b, a, i),
    ensures
        a == b,
    decreases a.len() - i,
{
    if i < a.len() && i < b.len() {
        assert(a[i] == b[i]) by {
            if a[i] != b[i] {
                assert((a[i] as int) != (b[i] as int));
            }
        }
        assert(a.subrange(0, i + 1) =~= a.subrange(0, i).push(a[i]));
        assert(b.subrange(0, i + 1) =~= b.subrange(0, i).push(b[i]));
        lemma_text_lt_total(a, b, i + 1);
    } else {
        assert(a =~= a.subrange(0, i));
        assert(b =~= b.subrange(0, i));
    }
}

/// The order of texts is a strict total order.
pub proof fn lemma_text_order(a: Seq<char>, b: Seq<char>, c: Seq<char>)
    ensures
        !text_before(a, a),
        text_before(a, b) && text_before(b, c) ==> text_before(a, c),
        a != b ==> text_before(a, b) || text_before(b, a),
{
    lemma_text_lt_irreflexive(a, 0);
    if text_before(a, b) && text_before(b, c) {
        lemma_text_lt_transitive(a, b, c, 0);
    }
    if a != b && !text_before(a, b) && !text_before(b, a) {
        assert(a.subrange(0, 0) =~= b.subrange(0, 0));
        lemma_text_lt_total(a, b, 0);
    }
}

/// `a < b` on strings.
pub fn text_less(a: &str, b: &str) -> (r: bool)
    ensures
        r == text_before(a@, b@),
{
    let la = a.unicode_len();
    let lb = b.unicode_len();
    let mut i: usize = 0;
    while i < la && i < lb
        invariant
            la == a@.len(),
            lb == b@.len(),
            i <= la,
            i <= lb,
            text_before(a@, b@) == text_lt_from(a@, b@, i as int),
        decreases la - i,
    {
        let ca = a.get_char(i);
        let cb = b.get_char(i);
        if ca != cb {
            return (ca as u32) < (cb as u32);
        }
        i = i + 1;
    }
    i < lb && i >= la
}

} // verus!
