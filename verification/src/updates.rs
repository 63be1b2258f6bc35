//! Partial updates: an `UPDATE` sets only the columns whose new value was supplied.
//!
//! The text of such a statement depends only on which fields are present, so the
//! library takes the presence of each field and returns the statement text with the
//! columns to bind, in placeholder order; the caller binds each present value, then
//! the row id.
use vstd::prelude::*;
use crate::text::join_with;

verus! {

/// The text of a partial update and the columns whose new values fill its
/// placeholders, in order (the row id, where the statement has one, comes last).
pub struct UpdatePlan {
    pub sql: String,
    pub columns: Vec<&'static str>,
}

/// The views of column names.
pub open spec fn names_view(cs: Seq<&'static str>) -> Seq<Seq<char>> {
    cs.map_values(|c: &'static str| c@)
}

/// The columns whose flag is set, in their order.
pub open spec fn chosen(names: Seq<Seq<char>>, flags: Seq<bool>) -> Seq<Seq<char>>
    decreases names.len(),
{
    if names.len() == 0 || flags.len() == 0 {
        Seq::empty()
    } else {
        let rest = chosen(names.drop_last(), flags.drop_last());
        if flags.last() {
            rest.push(names.last())
        } else {
            rest
        }
    }
}

/// `, col = ?` for each column, one after the other.
pub open spec fn appended_sets(cols: Seq<Seq<char>>) -> Seq<char>
    decreases cols.len(),
{
    if cols.len() == 0 {
        Seq::empty()
    } else {
        appended_sets(cols.drop_last()) + ", "@ + cols.last() + " = ?"@
    }
}

/// Everything `chosen` picks is one of the names.
pub proof fn lemma_chosen_from_names(names: Seq<Seq<char>>, flags: Seq<bool>, x: Seq<char>)
    requires
        chosen(names, flags).contains(x),
    ensures
        names.contains(x),
    decreases names.len(),
{
    if names.len() > 0 && flags.len() > 0 {
        let rest = chosen(names.drop_last(), flags.drop_last());
        if rest.contains(x) {
            lemma_chosen_from_names(names.drop_last(), flags.drop_last(), x);
            let j = choose|j: int| 0 <= j < names.drop_last().len() && names.drop_last()[j] == x;
            assert(names[j] == x);
        } else {
            assert(flags.last());
            let k = choose|k: int| 0 <= k < chosen(names, flags).len() && chosen(names, flags)[k] == x;
            assert(chosen(names, flags) == rest.push(names.last()));
            assert(k == rest.len());
            assert(names[names.len() - 1] == x);
        }
    }
}

/// Among distinct names, the name at position `i` is chosen exactly when the flag
/// at position `i` is set.
pub proof fn lemma_chosen_exactly_flagged(names: Seq<Seq<char>>, flags: Seq<bool>, i: int)
    requires
        names.len() == flags.len(),
        names.no_duplicates(),
        0 <= i < names.len(),
    ensures
        chosen(names, flags).contains(names[i]) == flags[i],
    decreases names.len(),
{
    let n = names.len() - 1;
    let rest = chosen(names.drop_last(), flags.drop_last());
    assert(names.drop_last().no_duplicates());
    if i < n {
        lemma_chosen_exactly_flagged(names.drop_last(), flags.drop_last(), i);
        assert(names.drop_last()[i] == names[i]);
        assert(flags.drop_last()[i] == flags[i]);
        assert(names[n] != names[i]);
        if flags.last() {
            assert(chosen(names, flags) == rest.push(names.last()));
            if chosen(names, flags).contains(names[i]) {
                let k = choose|k: int| 0 <= k < rest.len() + 1 && rest.push(names.last())[k] == names[i];
                if k < rest.len() {
                    assert(rest[k] == names[i]);
                }
            }
            if rest.contains(names[i]) {
                let k = choose|k: int| 0 <= k < rest.len() && rest[k] == names[i];
                assert(rest.push(names.last())[k] == names[i]);
            }
        }
    } else {
        if rest.contains(names[n]) {
            lemma_chosen_from_names(names.drop_last(), flags.drop_last(), names[n]);
            let j = choose|j: int| 0 <= j < n && names.drop_last()[j] == names[n];
            assert(names[j] == names[n]);
        }
        if flags.last() {
            assert(chosen(names, flags) == rest.push(names.last()));
            assert(rest.push(names.last())[rest.len() as int] == names[n]);
        }
    }
}

/// One assignment as the item and payment updates write it: ` col = ?`.
pub open spec fn spaced_set(col: Seq<char>) -> Seq<char> {
    " "@ + col + " = ?"@
}

/// ` col = ?` for each column, separated by `sep`.
pub open spec fn listed_sets(cols: Seq<Seq<char>>, sep: Seq<char>) -> Seq<char> {
    join_with(cols.map_values(|c: Seq<char>| spaced_set(c)), sep)
}

/// The names whose flag is set.
pub fn choose_columns(names: &Vec<&'static str>, flags: &Vec<bool>) -> (r: Vec<&'static str>)
    requires
        names.len() == flags.len(),
    ensures
        names_view(r@) == chosen(names_view(names@), flags@),
{
    let mut r: Vec<&'static str> = Vec::new();
    let mut i: usize = 0;
    while i < names.len()
        invariant
            names.len() == flags.len(),
            i <= names.len(),
            names_view(r@) == chosen(names_view(names@).take(i as int), flags@.take(i as int)),
        decreases names.len() - i,
    {
        proof {
            assert(names_view(names@).take(i as int + 1).drop_last() =~= names_view(names@).take(
                i as int,
            ));
            assert(flags@.take(i as int + 1).drop_last() =~= flags@.take(i as int));
        }
        if flags[i] {
            r.push(names[i]);
            proof {
                assert(names_view(r@) =~= names_view(r@.drop_last()).push(names[i as int]@));
            }
        }
        i = i + 1;
    }
    proof {
        assert(names_view(names@).take(names.len() as int) =~= names_view(names@));
        assert(flags@.take(flags.len() as int) =~= flags@);
    }
    r
}

/// Appends `, col = ?` for each column.
pub fn append_sets(out: &mut String, cols: &Vec<&'static str>)
    ensures
        final(out)@ == old(out)@ + appended_sets(names_view(cols@)),
{
    let ghost start = out@;
    let ghost views = names_view(cols@);
    let mut i: usize = 0;
    while i < cols.len()
        invariant
            i <= cols.len(),
            views == names_view(cols@),
            out@ == start + appended_sets(views.take(i as int)),
        decreases cols.len() - i,
    {
        proof {
            assert(views.take(i as int + 1).drop_last() =~= views.take(i as int));
        }
        out.append(", ");
        out.append(cols[i]);
        out.append(" = ?");
        proof {
            assert(out@ =~= start + appended_sets(views.take(i as int + 1)));
        }
        i = i + 1;
    }
    proof {
        assert(views.take(cols.len() as int) =~= views);
    }
}

/// Appends ` col = ?` for each column, separated by `sep`.
pub fn append_listed_sets(out: &mut String, cols: &Vec<&'static str>, sep: &str)
    ensures
        final(out)@ == old(out)@ + listed_sets(names_view(cols@), sep@),
{
    let ghost start = out@;
    let ghost views = names_view(cols@);
    let ghost items = views.map_values(|c: Seq<char>| spaced_set(c));
    let mut i: usize = 0;
    while i < cols.len()
        invariant
            i <= cols.len(),
            views == names_view(cols@),
            items == views.map_values(|c: Seq<char>| spaced_set(c)),
            out@ == start + join_with(items.take(i as int), sep@),
        decreases cols.len() - i,
    {
        proof {
            assert(items.take(i as int + 1).drop_last() =~= items.take(i as int));
        }
        if i > 0 {
            out.append(sep);
        }
        out.append(" ");
        out.append(cols[i]);
        out.append(" = ?");
        proof {
            assert(items[i as int] == spaced_set(cols@[i as int]@));
            if i == 0 {
                assert(items.take(1).len() == 1);
                assert(out@ =~= start + join_with(items.take(1), sep@));
            } else {
                assert(out@ =~= start + join_with(items.take(i as int + 1), sep@));
            }
        }
        i = i + 1;
    }
    proof {
        assert(items.take(cols.len() as int) =~= items);
    }
}

/// A statement of the form `head`, then `, col = ?` for each chosen column, then `tail`.
pub fn appended_update(
    head: &str,
    names: &Vec<&'static str>,
    flags: &Vec<bool>,
    tail: &str,
) -> (r: UpdatePlan)
    requires
        names.len() == flags.len(),
    ensures
        names_view(r.columns@) == chosen(names_view(names@), flags@),
        r.sql@ == head@ + appended_sets(chosen(names_view(names@), flags@)) + tail@,
{
    let columns = choose_columns(names, flags);
    let mut sql = String::from_str(head);
    append_sets(&mut sql, &columns);
    sql.append(tail);
    UpdatePlan { sql, columns }
}

/// A statement of the form `head`, then ` col = ?` for each chosen column separated
/// by `sep`, then `tail`.
pub fn listed_update(
    head: &str,
    names: &Vec<&'static str>,
    flags: &Vec<bool>,
    sep: &str,
    tail: &str,
) -> (r: UpdatePlan)
    requires
        names.len() == flags.len(),
    ensures
        names_view(r.columns@) == chosen(names_view(names@), flags@),
        r.sql@ == head@ + listed_sets(chosen(names_view(names@), flags@), sep@) + tail@,
{
    let columns = choose_columns(names, flags);
    let mut sql = String::from_str(head);
    append_listed_sets(&mut sql, &columns, sep);
    sql.append(tail);
    UpdatePlan { sql, columns }
}

} // verus!
