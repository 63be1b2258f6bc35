//! Allowlisted ORDER BY columns.  A requested sort key is only ever turned into
//! one of a fixed set of column names, so no request text reaches the SQL.
use vstd::prelude::*;
use crate::text::str_eq;

verus! {

/// The views of a key-to-column table.
pub open spec fn table_view(t: Seq<(&'static str, &'static str)>) -> Seq<(Seq<char>, Seq<char>)> {
    t.map_values(|p: (&'static str, &'static str)| (p.0@, p.1@))
}

/// The column of the first entry whose key is `key`, else `default`.
pub open spec fn lookup_column(
    key: Option<Seq<char>>,
    table: Seq<(Seq<char>, Seq<char>)>,
    default: Seq<char>,
) -> Seq<char>
    decreases table.len(),
{
    if table.len() == 0 {
        default
    } else if key == Some(table[0].0) {
        table[0].1
    } else {
        lookup_column(key, table.subrange(1, table.len() as int), default)
    }
}

/// A column of the table, or the default.
pub open spec fn is_listed_column(
    c: Seq<char>,
    table: Seq<(Seq<char>, Seq<char>)>,
    default: Seq<char>,
) -> bool {
    c == default || exists|i: int| 0 <= i < table.len() && c == (#[trigger] table[i]).1
}

/// The view of an optional key.
pub open spec fn key_view(k: Option<&str>) -> Option<Seq<char>> {
    match k {
        Some(s) => Some(s@),
        None => None,
    }
}

proof fn lemma_lookup_listed(
    key: Option<Seq<char>>,
    table: Seq<(Seq<char>, Seq<char>)>,
    default: Seq<char>,
)
    ensures
        is_listed_column(lookup_column(key, table, default), table, default),
    decreases table.len(),
{
    if table.len() > 0 && key != Some(table[0].0) {
        let rest = table.subrange(1, table.len() as int);
        lemma_lookup_listed(key, rest, default);
        let c = lookup_column(key, rest, default);
        if c != default {
            let i = choose|i: int| 0 <= i < rest.len() && c == (#[trigger] rest[i]).1;
            assert(table[i + 1] == rest[i]);
        }
    } else if table.len() > 0 {
        assert(table[0].1 == table[0].1);
    }
}

/// The column for the requested key: the column of the first table entry with that
/// key, or `default` when no entry has it (or no key was given).  The result is
/// always one of the table's columns or the default.
pub fn pick_column(
    sort_by: Option<&str>,
    table: &Vec<(&'static str, &'static str)>,
    default: &'static str,
) -> (r: &'static str)
    ensures
        r@ == lookup_column(key_view(sort_by), table_view(table@), default@),
        is_listed_column(r@, table_view(table@), default@),
{
    let ghost tv = table_view(table@);
    proof {
        lemma_lookup_listed(key_view(sort_by), tv, default@);
    }
    let key = match sort_by {
        Some(k) => k,
        None => {
            proof {
                assert forall|n: int| 0 <= n <= tv.len() implies lookup_column(
                    None,
                    #[trigger] tv.subrange(n, tv.len() as int),
                    default@,
                ) == default@ by {
                    lemma_lookup_none(tv.subrange(n, tv.len() as int), default@);
                }
                assert(tv.subrange(0, tv.len() as int) =~= tv);
            }
            return default;
        },
    };
    let mut i: usize = 0;
    proof {
        assert(tv.subrange(0, tv.len() as int) =~= tv);
    }
    while i < table.len()
        invariant
            i <= table@.len(),
            tv == table_view(table@),
            sort_by == Some(key),
            lookup_column(key_view(sort_by), tv, default@) == lookup_column(
                key_view(sort_by),
                tv.subrange(i as int, tv.len() as int),
                default@,
            ),
        decreases table@.len() - i,
    {
        let ghost rest = tv.subrange(i as int, tv.len() as int);
        proof {
            assert(rest[0] == tv[i as int]);
            assert(rest.subrange(1, rest.len() as int) =~= tv.subrange(i as int + 1, tv.len() as int));
        }
        if str_eq(table[i].0, key) {
            return table[i].1;
        }
        i = i + 1;
    }
    proof {
        assert(tv.subrange(i as int, tv.len() as int).len() == 0);
    }
    default
}

proof fn lemma_lookup_none(table: Seq<(Seq<char>, Seq<char>)>, default: Seq<char>)
    ensures
        lookup_column(None, table, default) == default,
    decreases table.len(),
{
    if table.len() > 0 {
        lemma_lookup_none(table.subrange(1, table.len() as int), default);
    }
}

/// The column for a key that names itself when it is on the allowlist.
pub fn pick_listed(sort_by: &str, allowed: &Vec<&'static str>, default: &'static str) -> (r:
    &'static str)
    ensures
        (exists|i: int| 0 <= i < allowed@.len() && (#[trigger] allowed@[i])@ == sort_by@) ==> r@
            == sort_by@,
        !(exists|i: int| 0 <= i < allowed@.len() && (#[trigger] allowed@[i])@ == sort_by@) ==> r@
            == default@,
        r@ == default@ || exists|i: int| 0 <= i < allowed@.len() && r@ == (
        #[trigger] allowed@[i])@,
{
    let mut i: usize = 0;
    while i < allowed.len()
        invariant
            i <= allowed@.len(),
            forall|q: int| 0 <= q < i ==> (#[trigger] allowed@[q])@ != sort_by@,
        decreases allowed@.len() - i,
    {
        if str_eq(allowed[i], sort_by) {
            return allowed[i];
        }
        i = i + 1;
    }
    default
}

} // verus!
