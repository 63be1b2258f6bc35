//! Pipe stock figures across the seamless and screen tables: counts of pipes in stock
//! per grade and per location, merged from the two tables' grouped counts into one
//! list ordered by key, and the presence checks of one pipe by kind.
use vstd::prelude::*;

use crate::error::{AppError, AppErrorView};
use crate::pipes::{pipe_type_of, PipeType};
use crate::quality::QualityCertRepo;
use crate::query::{params_view, SqlParam, SqlQuery, SqlValue};
use crate::text::{lemma_text_order, str_eq, text_before, text_less};

verus! {

/// Pipe stock figures over both pipe tables.
pub struct StockRepo;

/// In-stock seamless pipes per grade.
pub const GRADE_SEAMLESS: &'static str = "SELECT grade, COUNT(*) as cnt FROM seamless_pipes WHERE status = 'in_stock' AND deleted_at IS NULL GROUP BY grade ORDER BY grade";

/// In-stock screen pipes per grade.
pub const GRADE_SCREEN: &'static str = "SELECT grade, COUNT(*) as cnt FROM screen_pipes WHERE status = 'in_stock' AND deleted_at IS NULL GROUP BY grade ORDER BY grade";

/// In-stock seamless pipes per location.
pub const LOCATION_SEAMLESS: &'static str = "SELECT location, COUNT(*) as cnt FROM seamless_pipes WHERE status = 'in_stock' AND deleted_at IS NULL GROUP BY location ORDER BY location";

/// In-stock screen pipes per location.
pub const LOCATION_SCREEN: &'static str = "SELECT location, COUNT(*) as cnt FROM screen_pipes WHERE status = 'in_stock' AND deleted_at IS NULL GROUP BY location ORDER BY location";

/// Whether one seamless pipe is in stock.
pub const SEAMLESS_IN_STOCK: &'static str = "SELECT COUNT(*) FROM seamless_pipes WHERE id = ?1 AND status = 'in_stock' AND deleted_at IS NULL";

/// Whether one screen pipe is in stock.
pub const SCREEN_IN_STOCK: &'static str = "SELECT COUNT(*) FROM screen_pipes WHERE id = ?1 AND status = 'in_stock' AND deleted_at IS NULL";

/// Whether one seamless pipe exists.
pub const SEAMLESS_EXISTS: &'static str = "SELECT COUNT(*) FROM seamless_pipes WHERE id = ?1 AND deleted_at IS NULL";

/// Whether one screen pipe exists.
pub const SCREEN_EXISTS: &'static str = "SELECT COUNT(*) FROM screen_pipes WHERE id = ?1 AND deleted_at IS NULL";

/// All in-stock seamless pipes.
pub const SEAMLESS_IN_STOCK_TOTAL: &'static str = "SELECT COUNT(*) FROM seamless_pipes WHERE status = 'in_stock' AND deleted_at IS NULL";

/// All in-stock screen pipes.
pub const SCREEN_IN_STOCK_TOTAL: &'static str = "SELECT COUNT(*) FROM screen_pipes WHERE status = 'in_stock' AND deleted_at IS NULL";

/// The count of in-stock pipes of one kind.
pub open spec fn in_stock_total_sql(k: PipeType) -> Seq<char> {
    match k {
        PipeType::Seamless => SEAMLESS_IN_STOCK_TOTAL@,
        PipeType::Screen => SCREEN_IN_STOCK_TOTAL@,
    }
}

/// Whether one seamless pipe exists, as the certificate register asks it.
pub const SEAMLESS_PRESENT: &'static str = "SELECT COUNT(*) FROM seamless_pipes WHERE id = ? AND deleted_at IS NULL";

/// Whether one screen pipe exists, as the certificate register asks it.
pub const SCREEN_PRESENT: &'static str = "SELECT COUNT(*) FROM screen_pipes WHERE id = ? AND deleted_at IS NULL";

// ---------------------------------------------------------------------------
// Merging the two tables' counts
// ---------------------------------------------------------------------------

/// A grouped count as the merge reads it: key and count.
pub type KeyCount = (Seq<char>, i64);

/// A merged row as the contracts see it: key, seamless count, screen count.
pub type StockCountView = (Seq<char>, i64, i64);

pub open spec fn key_counts_view(rows: Seq<(String, i64)>) -> Seq<KeyCount> {
    rows.map_values(|r: (String, i64)| (r.0@, r.1))
}

pub open spec fn stock_counts_view(rows: Seq<(String, i64, i64)>) -> Seq<StockCountView> {
    rows.map_values(|r: (String, i64, i64)| (r.0@, r.1, r.2))
}

/// The count of the last of the first `n` rows with key `k`; 0 when none has it.
pub open spec fn last_count(rows: Seq<KeyCount>, k: Seq<char>, n: int) -> i64
    decreases n,
{
    if n <= 0 {
        0
    } else if rows[n - 1].0 == k {
        rows[n - 1].1
    } else {
        last_count(rows, k, n - 1)
    }
}

/// Some of the first `n` rows has key `k`.
pub open spec fn key_among(rows: Seq<KeyCount>, k: Seq<char>, n: int) -> bool {
    exists|q: int| 0 <= q < n && (#[trigger] rows[q]).0 == k
}

/// Some merged row has key `k`.
pub open spec fn has_key(out: Seq<StockCountView>, k: Seq<char>) -> bool {
    exists|j: int| 0 <= j < out.len() && #[trigger] out[j].0 == k
}

/// What merging the first `na` rows of `a` (the seamless counts) and the first `nb`
/// rows of `b` (the screen counts) gives: one row per key that occurs, keys strictly
/// ascending, each row with the last count its key has in `a` and in `b` (0 where the
/// key does not occur).
pub open spec fn counts_merged(
    a: Seq<KeyCount>,
    na: int,
    b: Seq<KeyCount>,
    nb: int,
    out: Seq<StockCountView>,
) -> bool {
    &&& forall|x: int, y: int|
        0 <= x < y < out.len() ==> text_before(#[trigger] out[x].0, #[trigger] out[y].0)
    &&& forall|j: int|
        0 <= j < out.len() ==> key_among(a, (#[trigger] out[j]).0, na) || key_among(b, out[j].0, nb)
    &&& forall|q: int| 0 <= q < na ==> has_key(out, (#[trigger] a[q]).0)
    &&& forall|q: int| 0 <= q < nb ==> has_key(out, (#[trigger] b[q]).0)
    &&& forall|j: int|
        0 <= j < out.len() ==> (#[trigger] out[j]).1 == last_count(a, out[j].0, na) && out[j].2
            == last_count(b, out[j].0, nb)
}

/// The merged rows with the two counts exchanged.
pub open spec fn swap_counts(out: Seq<StockCountView>) -> Seq<StockCountView> {
    out.map_values(|r: StockCountView| (r.0, r.2, r.1))
}

proof fn lemma_swap(a: Seq<KeyCount>, na: int, b: Seq<KeyCount>, nb: int, out: Seq<StockCountView>)
    requires
        counts_merged(a, na, b, nb, out),
    ensures
        counts_merged(b, nb, a, na, swap_counts(out)),
{
    let s = swap_counts(out);
    assert forall|x: int, y: int| 0 <= x < y < s.len() implies text_before(
        #[trigger] s[x].0,
        #[trigger] s[y].0,
    ) by {
        assert(s[x].0 == out[x].0 && s[y].0 == out[y].0);
    }
    assert forall|j: int| 0 <= j < s.len() implies key_among(b, (#[trigger] s[j]).0, nb)
        || key_among(a, s[j].0, na) by {
        assert(s[j].0 == out[j].0);
    }
    assert forall|q: int| 0 <= q < nb implies has_key(s, (#[trigger] b[q]).0) by {
        let j = choose|j: int| 0 <= j < out.len() && #[trigger] out[j].0 == b[q].0;
        assert(out[j].0 == b[q].0);
        assert(s[j] == (out[j].0, out[j].2, out[j].1));
        assert(0 <= j < s.len() && s[j].0 == b[q].0);
    }
    assert forall|q: int| 0 <= q < na implies has_key(s, (#[trigger] a[q]).0) by {
        let j = choose|j: int| 0 <= j < out.len() && #[trigger] out[j].0 == a[q].0;
        assert(out[j].0 == a[q].0);
        assert(s[j] == (out[j].0, out[j].2, out[j].1));
        assert(0 <= j < s.len() && s[j].0 == a[q].0);
    }
    assert forall|j: int| 0 <= j < s.len() implies (#[trigger] s[j]).1 == last_count(b, s[j].0, nb)
        && s[j].2 == last_count(a, s[j].0, na) by {
        assert(s[j] == (out[j].0, out[j].2, out[j].1));
    }
}

proof fn lemma_absent_key(rows: Seq<KeyCount>, k: Seq<char>, n: int)
    requires
        0 <= n,
        !key_among(rows, k, n),
    ensures
        last_count(rows, k, n) == 0,
    decreases n,
{
    if n > 0 {
        assert(rows[n - 1].0 != k);
        assert(!key_among(rows, k, n - 1)) by {
            if key_among(rows, k, n - 1) {
                let q = choose|q: int| 0 <= q < n - 1 && (#[trigger] rows[q]).0 == k;
                assert(0 <= q < n && rows[q].0 == k);
            }
        }
        lemma_absent_key(rows, k, n - 1);
    }
}

/// Ascending keys are distinct.
proof fn lemma_distinct_keys(out: Seq<StockCountView>, x: int, y: int)
    requires
        forall|p: int, q: int|
            0 <= p < q < out.len() ==> text_before(#[trigger] out[p].0, #[trigger] out[q].0),
        0 <= x < out.len(),
        0 <= y < out.len(),
        x != y,
    ensures
        out[x].0 != out[y].0,
{
    lemma_text_order(out[x].0, out[y].0, out[x].0);
    lemma_text_order(out[y].0, out[x].0, out[y].0);
    if x < y {
        assert(text_before(out[x].0, out[y].0));
    } else {
        assert(text_before(out[y].0, out[x].0));
    }
}

/// Row `na` of `a` overwrites the seamless count of the row `j` of its key.
proof fn lemma_step_update(
    a: Seq<KeyCount>,
    na: int,
    b: Seq<KeyCount>,
    nb: int,
    gs: Seq<StockCountView>,
    j: int,
    ns: Seq<StockCountView>,
)
    requires
        0 <= na < a.len(),
        0 <= nb,
        counts_merged(a, na, b, nb, gs),
        0 <= j < gs.len(),
        gs[j].0 == a[na].0,
        ns == gs.update(j, (gs[j].0, a[na].1, gs[j].2)),
    ensures
        counts_merged(a, na + 1, b, nb, ns),
{
    assert forall|x: int, y: int| 0 <= x < y < ns.len() implies text_before(
        #[trigger] ns[x].0,
        #[trigger] ns[y].0,
    ) by {
        assert(ns[x].0 == gs[x].0 && ns[y].0 == gs[y].0);
    }
    assert forall|q: int| 0 <= q < ns.len() implies key_among(a, (#[trigger] ns[q]).0, na + 1)
        || key_among(b, ns[q].0, nb) by {
        assert(ns[q].0 == gs[q].0);
        if key_among(a, gs[q].0, na) {
            let w = choose|w: int| 0 <= w < na && (#[trigger] a[w]).0 == gs[q].0;
            assert(0 <= w < na + 1 && a[w].0 == ns[q].0);
        }
    }
    assert forall|q: int| 0 <= q < na + 1 implies has_key(ns, (#[trigger] a[q]).0) by {
        if q == na {
            assert(ns[j].0 == a[q].0);
        } else {
            let x = choose|x: int| 0 <= x < gs.len() && #[trigger] gs[x].0 == a[q].0;
            assert(ns[x].0 == a[q].0);
        }
    }
    assert forall|q: int| 0 <= q < nb implies has_key(ns, (#[trigger] b[q]).0) by {
        let x = choose|x: int| 0 <= x < gs.len() && #[trigger] gs[x].0 == b[q].0;
        assert(ns[x].0 == b[q].0);
    }
    assert forall|q: int| 0 <= q < ns.len() implies (#[trigger] ns[q]).1 == last_count(
        a,
        ns[q].0,
        na + 1,
    ) && ns[q].2 == last_count(b, ns[q].0, nb) by {
        if q != j {
            lemma_distinct_keys(gs, q, j);
            assert(ns[q] == gs[q]);
        }
    }
}

/// Row `na` of `a` comes in as a new row at position `j`, its key being new.
proof fn lemma_step_insert(
    a: Seq<KeyCount>,
    na: int,
    b: Seq<KeyCount>,
    nb: int,
    gs: Seq<StockCountView>,
    j: int,
    ns: Seq<StockCountView>,
)
    requires
        0 <= na < a.len(),
        0 <= nb,
        counts_merged(a, na, b, nb, gs),
        0 <= j <= gs.len(),
        forall|q: int| 0 <= q < j ==> text_before(#[trigger] gs[q].0, a[na].0),
        j < gs.len() ==> !text_before(gs[j].0, a[na].0) && gs[j].0 != a[na].0,
        ns == gs.insert(j, (a[na].0, a[na].1, 0i64)),
    ensures
        counts_merged(a, na + 1, b, nb, ns),
{
    let k = a[na].0;
    assert forall|q: int| j <= q < gs.len() implies text_before(k, #[trigger] gs[q].0) by {
        lemma_text_order(gs[j].0, k, gs[j].0);
        lemma_text_order(k, gs[j].0, gs[q].0);
        if q > j {
            assert(text_before(gs[j].0, gs[q].0));
        }
    }
    assert forall|q: int| 0 <= q < gs.len() implies #[trigger] gs[q].0 != k by {
        lemma_text_order(k, k, k);
        if q < j {
            assert(text_before(gs[q].0, k));
        } else {
            assert(text_before(k, gs[q].0));
        }
    }
    assert(!key_among(a, k, na)) by {
        if key_among(a, k, na) {
            let w = choose|w: int| 0 <= w < na && (#[trigger] a[w]).0 == k;
            let x = choose|x: int| 0 <= x < gs.len() && #[trigger] gs[x].0 == a[w].0;
            assert(gs[x].0 == k);
        }
    }
    assert(!key_among(b, k, nb)) by {
        if key_among(b, k, nb) {
            let w = choose|w: int| 0 <= w < nb && (#[trigger] b[w]).0 == k;
            let x = choose|x: int| 0 <= x < gs.len() && #[trigger] gs[x].0 == b[w].0;
            assert(gs[x].0 == k);
        }
    }
    lemma_absent_key(b, k, nb);
    assert forall|x: int, y: int| 0 <= x < y < ns.len() implies text_before(
        #[trigger] ns[x].0,
        #[trigger] ns[y].0,
    ) by {
        if y < j {
            assert(ns[x] == gs[x] && ns[y] == gs[y]);
        } else if y == j {
            assert(ns[x] == gs[x]);
        } else if x < j {
            assert(ns[x] == gs[x] && ns[y] == gs[y - 1]);
            lemma_text_order(gs[x].0, k, gs[y - 1].0);
        } else if x == j {
            assert(ns[y] == gs[y - 1]);
        } else {
            assert(ns[x] == gs[x - 1] && ns[y] == gs[y - 1]);
        }
    }
    assert forall|q: int| 0 <= q < ns.len() implies key_among(a, (#[trigger] ns[q]).0, na + 1)
        || key_among(b, ns[q].0, nb) by {
        if q == j {
            assert(0 <= na < na + 1 && a[na].0 == ns[q].0);
        } else {
            let p = if q < j {
                q
            } else {
                q - 1
            };
            assert(ns[q] == gs[p]);
            if key_among(a, gs[p].0, na) {
                let w = choose|w: int| 0 <= w < na && (#[trigger] a[w]).0 == gs[p].0;
                assert(0 <= w < na + 1 && a[w].0 == ns[q].0);
            }
        }
    }
    assert forall|q: int| 0 <= q < na + 1 implies has_key(ns, (#[trigger] a[q]).0) by {
        if q == na {
            assert(ns[j].0 == a[q].0);
        } else {
            let x = choose|x: int| 0 <= x < gs.len() && #[trigger] gs[x].0 == a[q].0;
            if x < j {
                assert(ns[x].0 == a[q].0);
            } else {
                assert(ns[x + 1].0 == a[q].0);
            }
        }
    }
    assert forall|q: int| 0 <= q < nb implies has_key(ns, (#[trigger] b[q]).0) by {
        let x = choose|x: int| 0 <= x < gs.len() && #[trigger] gs[x].0 == b[q].0;
        if x < j {
            assert(ns[x].0 == b[q].0);
        } else {
            assert(ns[x + 1].0 == b[q].0);
        }
    }
    assert forall|q: int| 0 <= q < ns.len() implies (#[trigger] ns[q]).1 == last_count(
        a,
        ns[q].0,
        na + 1,
    ) && ns[q].2 == last_count(b, ns[q].0, nb) by {
        if q < j {
            assert(ns[q] == gs[q]);
        } else if q > j {
            assert(ns[q] == gs[q - 1]);
        }
    }
}

/// Where `key` belongs among rows ordered by key: the first position whose key does not
/// sort before it, and whether that row has the key itself.
fn locate(out: &Vec<(String, i64, i64)>, key: &str) -> (r: (usize, bool))
    ensures
        r.0 <= out@.len(),
        forall|q: int|
            0 <= q < r.0 ==> text_before(#[trigger] stock_counts_view(out@)[q].0, key@),
        r.0 < out@.len() ==> !text_before(stock_counts_view(out@)[r.0 as int].0, key@),
        r.1 == (r.0 < out@.len() && stock_counts_view(out@)[r.0 as int].0 == key@),
{
    let ghost gv = stock_counts_view(out@);
    let mut j: usize = 0;
    while j < out.len() && text_less(out[j].0.as_str(), key)
        invariant
            j <= out@.len(),
            gv == stock_counts_view(out@),
            forall|q: int| 0 <= q < j ==> text_before(#[trigger] gv[q].0, key@),
        decreases out@.len() - j,
    {
        j = j + 1;
    }
    let same = j < out.len() && str_eq(out[j].0.as_str(), key);
    (j, same)
}

/// Adds one grouped count to the merged rows: row `na` of `a` when `into_screen` is
/// false, row `nb` of `b` when it is true.
fn absorb(
    out: &mut Vec<(String, i64, i64)>,
    key: &String,
    count: i64,
    into_screen: bool,
    Ghost(a): Ghost<Seq<KeyCount>>,
    Ghost(na): Ghost<int>,
    Ghost(b): Ghost<Seq<KeyCount>>,
    Ghost(nb): Ghost<int>,
)
    requires
        0 <= na,
        0 <= nb,
        counts_merged(a, na, b, nb, stock_counts_view(old(out)@)),
        !into_screen ==> na < a.len() && a[na] == (key@, count),
        into_screen ==> nb < b.len() && b[nb] == (key@, count),
    ensures
        !into_screen ==> counts_merged(a, na + 1, b, nb, stock_counts_view(final(out)@)),
        into_screen ==> counts_merged(a, na, b, nb + 1, stock_counts_view(final(out)@)),
{
    let ghost gv = stock_counts_view(out@);
    let ghost sv = swap_counts(gv);
    proof {
        if into_screen {
            lemma_swap(a, na, b, nb, gv);
            assert forall|q: int| 0 <= q < gv.len() implies #[trigger] sv[q].0 == gv[q].0 by {}
        }
    }
    let (j, same) = locate(out, key.as_str());
    if same {
        let ghost before = out@;
        let mut row = out.remove(j);
        proof {
            assert(row == before[j as int]);
        }
        if into_screen {
            row.2 = count;
        } else {
            row.1 = count;
        }
        out.insert(j, row);
        proof {
            if into_screen {
                let ns = sv.update(j as int, (sv[j as int].0, b[nb].1, sv[j as int].2));
                lemma_step_update(b, nb, a, na, sv, j as int, ns);
                lemma_swap(b, nb + 1, a, na, ns);
                assert(stock_counts_view(out@) =~= swap_counts(ns));
            } else {
                let ns = gv.update(j as int, (gv[j as int].0, a[na].1, gv[j as int].2));
                assert(stock_counts_view(out@) =~= ns);
                lemma_step_update(a, na, b, nb, gv, j as int, ns);
            }
        }
    } else if into_screen {
        out.insert(j, (key.clone(), 0, count));
        proof {
            let ns = sv.insert(j as int, (b[nb].0, b[nb].1, 0i64));
            lemma_step_insert(b, nb, a, na, sv, j as int, ns);
            lemma_swap(b, nb + 1, a, na, ns);
            assert(stock_counts_view(out@) =~= swap_counts(ns));
        }
    } else {
        out.insert(j, (key.clone(), count, 0));
        proof {
            let ns = gv.insert(j as int, (a[na].0, a[na].1, 0i64));
            assert(stock_counts_view(out@) =~= ns);
            lemma_step_insert(a, na, b, nb, gv, j as int, ns);
        }
    }
}

impl StockRepo {
    /// Merges the per-key counts of the seamless table (`seamless`) and of the screen
    /// table (`screen`): one row `(key, seamless count, screen count)` per key that
    /// occurs in either, keys strictly ascending; where a key repeats in a list its last
    /// count stands, and a key absent from a list has count 0 there.
    pub fn merge_counts(seamless: &Vec<(String, i64)>, screen: &Vec<(String, i64)>) -> (r: Vec<
        (String, i64, i64),
    >)
        ensures
            counts_merged(
                key_counts_view(seamless@),
                seamless@.len() as int,
                key_counts_view(screen@),
                screen@.len() as int,
                stock_counts_view(r@),
            ),
    {
        let ghost a = key_counts_view(seamless@);
        let ghost b = key_counts_view(screen@);
        let mut out: Vec<(String, i64, i64)> = Vec::new();
        proof {
            assert(stock_counts_view(out@) =~= Seq::<StockCountView>::empty());
        }
        let mut k: usize = 0;
        while k < seamless.len()
            invariant
                k <= seamless@.len(),
                a == key_counts_view(seamless@),
                b == key_counts_view(screen@),
                counts_merged(a, k as int, b, 0, stock_counts_view(out@)),
            decreases seamless@.len() - k,
        {
            absorb(&mut out, &seamless[k].0, seamless[k].1, false, Ghost(a), Ghost(k as int), Ghost(b), Ghost(0));
            k = k + 1;
        }
        let mut k: usize = 0;
        while k < screen.len()
            invariant
                k <= screen@.len(),
                a == key_counts_view(seamless@),
                b == key_counts_view(screen@),
                counts_merged(a, seamless@.len() as int, b, k as int, stock_counts_view(out@)),
            decreases screen@.len() - k,
        {
            absorb(
                &mut out,
                &screen[k].0,
                screen[k].1,
                true,
                Ghost(a),
                Ghost(seamless@.len() as int),
                Ghost(b),
                Ghost(k as int),
            );
            k = k + 1;
        }
        out
    }
}

/// A location count as the merge reads it: no location groups under `unknown`.
pub open spec fn located_view(rows: Seq<(Option<String>, i64)>) -> Seq<KeyCount> {
    rows.map_values(
        |r: (Option<String>, i64)|
            (
                match r.0 {
                    Some(l) => l@,
                    None => "unknown"@,
                },
                r.1,
            ),
    )
}

/// The location counts with each missing location named `unknown`.
fn name_locations(rows: &Vec<(Option<String>, i64)>) -> (r: Vec<(String, i64)>)
    ensures
        key_counts_view(r@) == located_view(rows@),
{
    let mut out: Vec<(String, i64)> = Vec::new();
    let mut i: usize = 0;
    while i < rows.len()
        invariant
            i <= rows@.len(),
            key_counts_view(out@) == located_view(rows@).take(i as int),
        decreases rows@.len() - i,
    {
        let key = match &rows[i].0 {
            Some(l) => l.clone(),
            None => String::from_str("unknown"),
        };
        proof {
            assert(key@ == located_view(rows@)[i as int].0);
        }
        let ghost prev = out@;
        let count = rows[i].1;
        out.push((key, count));
        proof {
            assert(out@ == prev.push((key, count)));
            assert(key_counts_view(out@) =~= key_counts_view(prev).push((key@, count)));
            assert(key_counts_view(out@) =~= located_view(rows@).take(i as int + 1));
        }
        i = i + 1;
    }
    proof {
        assert(located_view(rows@).take(rows@.len() as int) =~= located_view(rows@));
    }
    out
}

/// The message for a pipe kind that names neither table.
pub open spec fn invalid_pipe_type_message(pipe_type: Seq<char>) -> Seq<char> {
    "Invalid pipe_type: "@ + pipe_type
}

/// The error for a pipe kind that names neither table.
pub fn invalid_pipe_type(pipe_type: &str) -> (r: AppError)
    ensures
        r@ == AppErrorView::BadRequest(invalid_pipe_type_message(pipe_type@)),
{
    let mut m = String::from_str("Invalid pipe_type: ");
    m.append(pipe_type);
    AppError::BadRequest(m)
}

/// The counting statement chosen by pipe kind, bound to the pipe's id; the error for a
/// kind that names neither table.
pub open spec fn pipe_count_query(
    pipe_type: Seq<char>,
    pipe_id: Seq<char>,
    seamless_sql: Seq<char>,
    screen_sql: Seq<char>,
) -> Result<(Seq<char>, Seq<SqlValue>), AppErrorView> {
    match pipe_type_of(pipe_type) {
        Some(PipeType::Seamless) => Ok((seamless_sql, seq![SqlValue::Text(pipe_id)])),
        Some(PipeType::Screen) => Ok((screen_sql, seq![SqlValue::Text(pipe_id)])),
        None => Err(AppErrorView::BadRequest(invalid_pipe_type_message(pipe_type))),
    }
}

/// The view of a statement result.
pub open spec fn query_result_view(r: Result<SqlQuery, AppError>) -> Result<
    (Seq<char>, Seq<SqlValue>),
    AppErrorView,
> {
    match r {
        Ok(q) => Ok((q@.sql, q@.params)),
        Err(e) => Err(e@),
    }
}

fn count_by_kind(pipe_type: &str, pipe_id: &str, seamless_sql: &str, screen_sql: &str) -> (r: Result<
    SqlQuery,
    AppError,
>)
    ensures
        query_result_view(r) == pipe_count_query(pipe_type@, pipe_id@, seamless_sql@, screen_sql@),
{
    let sql = match PipeType::from_pipe_type_str(pipe_type) {
        Some(PipeType::Seamless) => seamless_sql,
        Some(PipeType::Screen) => screen_sql,
        None => {
            return Err(invalid_pipe_type(pipe_type));
        },
    };
    let mut params: Vec<SqlParam> = Vec::new();
    params.push(SqlParam::Text(String::from_str(pipe_id)));
    proof {
        assert(params_view(params@) =~= seq![SqlValue::Text(pipe_id@)]);
    }
    Ok(SqlQuery { sql: String::from_str(sql), params })
}

impl StockRepo {
    /// Counts the in-stock pipes of kind `k`; `total_in_stock` adds the two counts.
    pub fn in_stock_total_query(k: PipeType) -> (r: SqlQuery)
        ensures
            r@.sql == in_stock_total_sql(k),
            r@.params.len() == 0,
    {
        let sql = match k {
            PipeType::Seamless => SEAMLESS_IN_STOCK_TOTAL,
            PipeType::Screen => SCREEN_IN_STOCK_TOTAL,
        };
        SqlQuery { sql: String::from_str(sql), params: Vec::new() }
    }

    /// All in-stock pipes: the seamless count plus the screen count.
    pub fn total_in_stock(seamless: i64, screen: i64) -> (r: i64)
        requires
            i64::MIN <= seamless + screen <= i64::MAX,
        ensures
            r == seamless + screen,
    {
        seamless + screen
    }

    /// In-stock pipes per location from the two tables' grouped counts: pipes with no
    /// location count under `unknown`, then the counts merge as `merge_counts` does.
    pub fn merge_location_counts(
        seamless: &Vec<(Option<String>, i64)>,
        screen: &Vec<(Option<String>, i64)>,
    ) -> (r: Vec<(String, i64, i64)>)
        ensures
            counts_merged(
                located_view(seamless@),
                seamless@.len() as int,
                located_view(screen@),
                screen@.len() as int,
                stock_counts_view(r@),
            ),
    {
        let a = name_locations(seamless);
        let b = name_locations(screen);
        proof {
            assert(key_counts_view(a@).len() == a@.len());
            assert(key_counts_view(b@).len() == b@.len());
        }
        StockRepo::merge_counts(&a, &b)
    }

    /// Whether pipe `pipe_id` of kind `pipe_type` is in stock: the counting statement
    /// of its table, or the error for a kind that names neither table.
    pub fn in_stock_query(pipe_type: &str, pipe_id: &str) -> (r: Result<SqlQuery, AppError>)
        ensures
            query_result_view(r) == pipe_count_query(
                pipe_type@,
                pipe_id@,
                SEAMLESS_IN_STOCK@,
                SCREEN_IN_STOCK@,
            ),
    {
        count_by_kind(pipe_type, pipe_id, SEAMLESS_IN_STOCK, SCREEN_IN_STOCK)
    }

    /// Whether pipe `pipe_id` of kind `pipe_type` exists: the counting statement of its
    /// table, or the error for a kind that names neither table.
    pub fn exists_query(pipe_type: &str, pipe_id: &str) -> (r: Result<SqlQuery, AppError>)
        ensures
            query_result_view(r) == pipe_count_query(
                pipe_type@,
                pipe_id@,
                SEAMLESS_EXISTS@,
                SCREEN_EXISTS@,
            ),
    {
        count_by_kind(pipe_type, pipe_id, SEAMLESS_EXISTS, SCREEN_EXISTS)
    }

    /// The answer of a presence check: some row was counted.
    pub fn counted(count: i64) -> (r: bool)
        ensures
            r == (count > 0),
    {
        count > 0
    }
}

impl QualityCertRepo {
    /// Whether pipe `pipe_id` of kind `pipe_type` exists, as the certificate register
    /// asks it: the counting statement of its table, or the error for a kind that names
    /// neither table.
    pub fn pipe_exists_query(pipe_type: &str, pipe_id: &str) -> (r: Result<SqlQuery, AppError>)
        ensures
            query_result_view(r) == pipe_count_query(
                pipe_type@,
                pipe_id@,
                SEAMLESS_PRESENT@,
                SCREEN_PRESENT@,
            ),
    {
        count_by_kind(pipe_type, pipe_id, SEAMLESS_PRESENT, SCREEN_PRESENT)
    }
}

/// The seamless pipe with a given number: id, number and grade.
pub const SEAMLESS_BY_NUMBER: &'static str = "SELECT id, pipe_number, grade FROM seamless_pipes WHERE pipe_number = ? AND deleted_at IS NULL";

/// The screen pipe with a given number: id, number and grade.
pub const SCREEN_BY_NUMBER: &'static str = "SELECT id, pipe_number, grade FROM screen_pipes WHERE pipe_number = ? AND deleted_at IS NULL";

/// Which pipe a number names: the seamless pipe when the seamless table has one, else
/// the screen pipe when the screen table has one; each row is (id, number, grade).
pub open spec fn pipe_by_number(
    seamless: Option<(Seq<char>, Seq<char>, Seq<char>)>,
    screen: Option<(Seq<char>, Seq<char>, Seq<char>)>,
) -> Option<(Seq<char>, Seq<char>, Seq<char>)> {
    match (seamless, screen) {
        (Some(row), _) => Some(("seamless"@, row.0, row.2)),
        (None, Some(row)) => Some(("screen"@, row.0, row.2)),
        (None, None) => None,
    }
}

/// An optional row of three texts, as the contracts see it.
pub open spec fn row3_view(r: Option<(String, String, String)>) -> Option<(Seq<char>, Seq<char>, Seq<char>)> {
    match r {
        Some(x) => Some((x.0@, x.1@, x.2@)),
        None => None,
    }
}

impl QualityCertRepo {
    /// The pipe a number names, from the rows the two tables gave for it (the screen
    /// table is only asked when the seamless table has none): `(kind, id, grade)`.
    pub fn pipe_number_hit(
        seamless: Option<(String, String, String)>,
        screen: Option<(String, String, String)>,
    ) -> (r: Option<(String, String, String)>)
        ensures
            row3_view(r) == pipe_by_number(row3_view(seamless), row3_view(screen)),
    {
        match seamless {
            Some(row) => Some((String::from_str("seamless"), row.0, row.2)),
            None => match screen {
                Some(row) => Some((String::from_str("screen"), row.0, row.2)),
                None => None,
            },
        }
    }
}

} // verus!
