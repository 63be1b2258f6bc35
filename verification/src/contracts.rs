//! Contracts, their items and their payment milestones: contract numbering, the
//! partial updates, and the list queries of the contract repositories.
use vstd::prelude::*;
use crate::updates::{lemma_chosen_exactly_flagged};
use crate::text::owned;
use crate::contract_text::{
    CONTRACT_COUNT_HEAD, CONTRACT_NOT_DELETED, CONTRACT_ROWS_HEAD, CONTRACT_SEARCH,
    CONTRACT_STATUS_IS, CONTRACT_TYPE_IS, SIGNED_FROM, SIGNED_TO, LEDGER_COUNT, LEDGER_LIST_HEAD,
    LEDGER_PAGE, CONTRACT_MAX_NO, CONTRACT_UPDATE_HEAD, CONTRACT_UPDATE_TAIL, ITEM_BY_ID, ITEM_UPDATE_HEAD,
    ITEM_UPDATE_TAIL, PAYMENT_BY_ID, PAYMENT_UPDATE_HEAD, PAYMENT_UPDATE_TAIL,
};
use crate::numbering::{
    all_digits, digit_value, digits_value, i64_from_text, is_digit, lemma_zero_padded_value,
    parse_i64, push_digits, push_zero_padded, zero_padded,
};
use crate::query::{clause_if, copy_params, nullable_param, nullable_text, params_view, string_param, ListQuery, SqlParam, SqlQuery, SqlValue};
use crate::numbering::{int_text, push_i64};
use crate::listing::{numbered_page, numbered_page_text};
use crate::paging::{order_text, SortOrder};
use crate::pipes::{has_text, requested_order, store_offset};
use crate::repo_text::{ORDER_BY, SPACE};
use crate::sorting::{key_view, lookup_column, pick_column, table_view};
use crate::text::{append_joined_strings, join_with, like_contains, like_prefix, push_char, str_eq, strings_view};
use crate::updates::{
    appended_sets, appended_update, chosen, listed_sets, listed_update, names_view, UpdatePlan,
};

verus! {

/// Contracts and their items and payments.
pub struct ContractRepo;

// ---------------------------------------------------------------------------
// Contract numbers
// ---------------------------------------------------------------------------

/// The number prefix of a contract type: `CT-SAL` for sales, `CT-PUR` for
/// purchases, `CT` for any other type.
pub open spec fn contract_prefix(t: Seq<char>) -> Seq<char> {
    if t == "sales"@ {
        "CT-SAL"@
    } else if t == "purchase"@ {
        "CT-PUR"@
    } else {
        "CT"@
    }
}

/// The text after the last `-` (all of `s` when it has none), as the last piece
/// of `s.split('-')`.
pub open spec fn last_segment(s: Seq<char>) -> Seq<char>
    decreases s.len(),
{
    if s.len() == 0 {
        s
    } else if s.last() == '-' {
        Seq::empty()
    } else {
        last_segment(s.drop_last()).push(s.last())
    }
}

/// The sequence number after the greatest existing number `last`: one more than
/// its last segment read as an integer (a segment that is no integer counts as
/// 0), or 1 when there is no number yet.
pub open spec fn next_sequence(last: Option<Seq<char>>) -> int {
    match last {
        None => 1,
        Some(l) => match i64_from_text(last_segment(l)) {
            Some(n) => n + 1,
            None => 1,
        },
    }
}

/// `format!("{}-{:06}", prefix, seq)`.
pub open spec fn contract_number(prefix: Seq<char>, seq: nat) -> Seq<char> {
    prefix + seq!['-'] + zero_padded(seq, 6)
}

/// The view of an optional text.
pub open spec fn opt_text(v: Option<&str>) -> Option<Seq<char>> {
    match v {
        Some(t) => Some(t@),
        None => None,
    }
}

/// A last segment holds no `-`.
proof fn lemma_segment_has_no_dash(s: Seq<char>)
    ensures
        forall|i: int| 0 <= i < last_segment(s).len() ==> last_segment(s)[i] != '-',
    decreases s.len(),
{
    if s.len() > 0 && s.last() != '-' {
        lemma_segment_has_no_dash(s.drop_last());
        let r = last_segment(s.drop_last());
        assert(last_segment(s) == r.push(s.last()));
        assert forall|i: int| 0 <= i < last_segment(s).len() implies last_segment(s)[i] != '-' by {
            if i < r.len() {
                assert(last_segment(s)[i] == r[i]);
            }
        }
    }
}

/// A run of digits has a value of at least zero.
proof fn lemma_digits_nonneg(d: Seq<char>)
    requires
        all_digits(d),
    ensures
        digits_value(d) >= 0,
    decreases d.len(),
{
    if d.len() > 0 {
        assert(all_digits(d.drop_last())) by {
            assert forall|i: int| 0 <= i < d.drop_last().len() implies is_digit(
                #[trigger] d.drop_last()[i],
            ) by {
                assert(d.drop_last()[i] == d[i]);
            }
        }
        lemma_digits_nonneg(d.drop_last());
        assert(is_digit(d[d.len() - 1]));
        assert(digit_value(d.last()) >= 0);
    }
}

/// A text without `-` reads as no negative integer.
proof fn lemma_undashed_nonneg(s: Seq<char>)
    requires
        forall|i: int| 0 <= i < s.len() ==> s[i] != '-',
    ensures
        i64_from_text(s) matches Some(n) ==> n >= 0,
{
    let signed = s.len() > 0 && (s[0] == '-' || s[0] == '+');
    let body = if signed {
        s.subrange(1, s.len() as int)
    } else {
        s
    };
    if body.len() > 0 && all_digits(body) {
        lemma_digits_nonneg(body);
    }
}

/// The segment after the last `-` of `x + "-" + z` is `z` when `z` has no `-`.
proof fn lemma_segment_after_dash(x: Seq<char>, z: Seq<char>)
    requires
        forall|i: int| 0 <= i < z.len() ==> z[i] != '-',
    ensures
        last_segment(x + seq!['-'] + z) == z,
    decreases z.len(),
{
    let s = x + seq!['-'] + z;
    if z.len() == 0 {
        assert(s.last() == '-');
    } else {
        assert(s.drop_last() =~= x + seq!['-'] + z.drop_last());
        assert(s.last() == z.last());
        lemma_segment_after_dash(x, z.drop_last());
        assert(z.drop_last().push(z.last()) =~= z);
    }
}

/// A run of digits that fits reads back as its value.
proof fn lemma_digits_read(d: Seq<char>)
    requires
        d.len() > 0,
        all_digits(d),
        digits_value(d) <= i64::MAX,
    ensures
        i64_from_text(d) == Some(digits_value(d) as i64),
{
    assert(is_digit(d[0]));
    lemma_digits_nonneg(d);
}

/// A contract number carries its sequence number: the text after its last `-`
/// reads back as the number it was made from.
pub proof fn lemma_contract_number_sequence(prefix: Seq<char>, n: nat)
    requires
        n <= i64::MAX,
    ensures
        last_segment(contract_number(prefix, n)) == zero_padded(n, 6),
        i64_from_text(last_segment(contract_number(prefix, n))) == Some(n as i64),
{
    lemma_zero_padded_value(n, 6);
    let z = zero_padded(n, 6);
    assert forall|i: int| 0 <= i < z.len() implies z[i] != '-' by {
        assert(is_digit(z[i]));
    }
    lemma_segment_after_dash(prefix, z);
    lemma_digits_read(z);
}

/// Numbering moves forward: the number made after a greatest number `last` carries
/// the sequence number one above the one `last` carries (or 1 when `last` carries
/// none).
pub proof fn lemma_next_number_follows(prefix: Seq<char>, last: Seq<char>)
    requires
        i64_from_text(last_segment(last)) != Some(i64::MAX),
    ensures
        next_sequence(Some(last)) >= 1,
        i64_from_text(last_segment(contract_number(prefix, next_sequence(Some(last)) as nat)))
            == Some(next_sequence(Some(last)) as i64),
        i64_from_text(last_segment(last)) matches Some(m) ==> next_sequence(Some(last)) == m + 1,
{
    lemma_segment_has_no_dash(last);
    lemma_undashed_nonneg(last_segment(last));
    lemma_contract_number_sequence(prefix, next_sequence(Some(last)) as nat);
}

/// The text after the last `-` of `s`.
fn last_segment_of(s: &str) -> (r: String)
    ensures
        r@ == last_segment(s@),
{
    let n = s.unicode_len();
    let mut seg = String::new();
    let mut i: usize = 0;
    while i < n
        invariant
            n == s@.len(),
            i <= n,
            seg@ == last_segment(s@.take(i as int)),
        decreases n - i,
    {
        let ch = s.get_char(i);
        proof {
            assert(s@.take(i as int + 1).drop_last() =~= s@.take(i as int));
            assert(s@.take(i as int + 1).last() == ch);
        }
        if ch == '-' {
            seg = String::new();
        } else {
            push_char(&mut seg, ch);
        }
        i = i + 1;
    }
    proof {
        assert(s@.take(n as int) =~= s@);
    }
    seg
}

impl ContractRepo {
    /// The number prefix of a contract type.
    pub fn contract_no_prefix(contract_type: &str) -> (r: &'static str)
        ensures
            r@ == contract_prefix(contract_type@),
    {
        if str_eq(contract_type, "sales") {
            "CT-SAL"
        } else if str_eq(contract_type, "purchase") {
            "CT-PUR"
        } else {
            "CT"
        }
    }

    /// The statement that finds the greatest contract number of a type's prefix.
    pub fn max_no_query(contract_type: &str) -> (r: SqlQuery)
        ensures
            r@.sql == CONTRACT_MAX_NO@,
            r@.params == seq![SqlValue::Text(contract_prefix(contract_type@) + seq!['%'])],
    {
        let prefix = Self::contract_no_prefix(contract_type);
        let mut params: Vec<SqlParam> = Vec::new();
        params.push(SqlParam::Text(like_prefix(prefix)));
        proof {
            assert(params_view(params@) =~= seq![
                SqlValue::Text(contract_prefix(contract_type@) + seq!['%']),
            ]);
        }
        SqlQuery { sql: String::from_str(CONTRACT_MAX_NO), params }
    }

    /// The number of a new contract of `contract_type`, after the greatest existing
    /// number `last` of its prefix: the prefix, a `-`, and the next sequence
    /// number padded with zeros to six digits.
    pub fn next_contract_no(contract_type: &str, last: Option<&str>) -> (r: String)
        requires
            last matches Some(l) ==> i64_from_text(last_segment(l@)) != Some(i64::MAX),
        ensures
            r@ == contract_number(
                contract_prefix(contract_type@),
                next_sequence(opt_text(last)) as nat,
            ),
            next_sequence(opt_text(last)) >= 1,
    {
        let prefix = Self::contract_no_prefix(contract_type);
        let next_seq: i64 = match last {
            Some(l) => {
                let seg = last_segment_of(l);
                proof {
                    lemma_segment_has_no_dash(l@);
                    lemma_undashed_nonneg(last_segment(l@));
                }
                match parse_i64(seg.as_str()) {
                    Some(n) => n + 1,
                    None => 1,
                }
            },
            None => 1,
        };
        let mut r = String::from_str(prefix);
        push_char(&mut r, '-');
        push_zero_padded(&mut r, next_seq as u64, 6);
        proof {
            assert(r@ =~= contract_number(
                contract_prefix(contract_type@),
                next_sequence(opt_text(last)) as nat,
            ));
        }
        r
    }
}

// ---------------------------------------------------------------------------
// Partial updates
// ---------------------------------------------------------------------------

/// Which fields of a contract update carry a new value.
pub struct ContractChanges {
    pub title: bool,
    pub party_a: bool,
    pub party_b: bool,
    pub sign_date: bool,
    pub start_date: bool,
    pub end_date: bool,
    pub notes: bool,
}

/// The columns a contract update may set, in the order it sets them.
pub open spec fn contract_update_columns() -> Seq<Seq<char>> {
    seq!["title"@, "party_a"@, "party_b"@, "sign_date"@, "start_date"@, "end_date"@, "notes"@]
}

/// The presence flags of a contract update in column order.
pub open spec fn contract_update_flags(c: ContractChanges) -> Seq<bool> {
    seq![c.title, c.party_a, c.party_b, c.sign_date, c.start_date, c.end_date, c.notes]
}

/// Which fields of a contract item update carry a new value.
pub struct ItemChanges {
    pub pipe_type: bool,
    pub grade: bool,
    pub od: bool,
    pub wt: bool,
    pub quantity: bool,
    pub unit_price: bool,
    pub notes: bool,
}

/// The columns an item update may set, in the order it sets them.
pub open spec fn item_update_columns() -> Seq<Seq<char>> {
    seq!["pipe_type"@, "grade"@, "od"@, "wt"@, "quantity"@, "unit_price"@, "notes"@]
}

/// The presence flags of an item update in column order.
pub open spec fn item_update_flags(c: ItemChanges) -> Seq<bool> {
    seq![c.pipe_type, c.grade, c.od, c.wt, c.quantity, c.unit_price, c.notes]
}

/// Which fields of a payment update carry a new value.
pub struct PaymentChanges {
    pub due_date: bool,
    pub amount: bool,
    pub payment_type: bool,
    pub is_paid: bool,
    pub paid_date: bool,
    pub notes: bool,
}

/// The columns a payment update may set, in the order it sets them.
pub open spec fn payment_update_columns() -> Seq<Seq<char>> {
    seq!["due_date"@, "amount"@, "payment_type"@, "is_paid"@, "paid_date"@, "notes"@]
}

/// The presence flags of a payment update in column order.
pub open spec fn payment_update_flags(c: PaymentChanges) -> Seq<bool> {
    seq![c.due_date, c.amount, c.payment_type, c.is_paid, c.paid_date, c.notes]
}

/// What an item update does: nothing to set (the item is read back as it is), or
/// the update statement; after an update that set the quantity or the unit price,
/// the item's total price is recomputed and stored, and the item read back.
pub struct ItemUpdate {
    pub plan: Option<UpdatePlan>,
    pub refresh_total: bool,
}

/// Some flag is set.
pub open spec fn any_set(flags: Seq<bool>) -> bool {
    exists|i: int| 0 <= i < flags.len() && flags[i]
}

proof fn lemma_chosen_empty(names: Seq<Seq<char>>, flags: Seq<bool>)
    requires
        names.len() == flags.len(),
    ensures
        (chosen(names, flags).len() == 0) == !any_set(flags),
    decreases names.len(),
{
    if names.len() > 0 {
        lemma_chosen_empty(names.drop_last(), flags.drop_last());
        if any_set(flags.drop_last()) {
            let i = choose|i: int| 0 <= i < flags.drop_last().len() && flags.drop_last()[i];
            assert(flags[i]);
        }
        if any_set(flags) && !flags.last() {
            let i = choose|i: int| 0 <= i < flags.len() && flags[i];
            assert(flags.drop_last()[i]);
        }
    }
}

impl ContractRepo {
    /// The update of one contract by id: `updated_at` is always reset, each supplied
    /// field is set, and the contract comes back.  The new values are bound in the
    /// order of `columns`, then the id.
    pub fn update_plan(changes: &ContractChanges) -> (r: UpdatePlan)
        ensures
            names_view(r.columns@) == chosen(contract_update_columns(), contract_update_flags(*changes)),
            r.sql@ == CONTRACT_UPDATE_HEAD@ + appended_sets(
                chosen(contract_update_columns(), contract_update_flags(*changes)),
            ) + CONTRACT_UPDATE_TAIL@,
    {
        let names: Vec<&'static str> = vec![
            "title",
            "party_a",
            "party_b",
            "sign_date",
            "start_date",
            "end_date",
            "notes",
        ];
        let flags: Vec<bool> = vec![
            changes.title,
            changes.party_a,
            changes.party_b,
            changes.sign_date,
            changes.start_date,
            changes.end_date,
            changes.notes,
        ];
        proof {
            assert(names_view(names@) =~= contract_update_columns());
            assert(flags@ =~= contract_update_flags(*changes));
        }
        appended_update(CONTRACT_UPDATE_HEAD, &names, &flags, CONTRACT_UPDATE_TAIL)
    }

    /// The update of one contract item by id.  With no field to set there is no
    /// update (the caller reads the item back with `item_by_id_query`); otherwise
    /// the statement sets the supplied fields and returns the item, and when the
    /// quantity or the unit price changed the total price is to be recomputed.
    pub fn update_item_plan(changes: &ItemChanges) -> (r: ItemUpdate)
        ensures
            r.plan is None <==> !any_set(item_update_flags(*changes)),
            r.plan matches Some(p) ==> names_view(p.columns@) == chosen(
                item_update_columns(),
                item_update_flags(*changes),
            ) && p.sql@ == ITEM_UPDATE_HEAD@ + listed_sets(
                chosen(item_update_columns(), item_update_flags(*changes)),
                ", "@,
            ) + ITEM_UPDATE_TAIL@,
            r.refresh_total == (changes.quantity || changes.unit_price),
    {
        let names: Vec<&'static str> = vec![
            "pipe_type",
            "grade",
            "od",
            "wt",
            "quantity",
            "unit_price",
            "notes",
        ];
        let flags: Vec<bool> = vec![
            changes.pipe_type,
            changes.grade,
            changes.od,
            changes.wt,
            changes.quantity,
            changes.unit_price,
            changes.notes,
        ];
        proof {
            assert(names_view(names@) =~= item_update_columns());
            assert(flags@ =~= item_update_flags(*changes));
            lemma_chosen_empty(item_update_columns(), item_update_flags(*changes));
        }
        let plan = listed_update(ITEM_UPDATE_HEAD, &names, &flags, ", ", ITEM_UPDATE_TAIL);
        let refresh_total = changes.quantity || changes.unit_price;
        if plan.columns.len() == 0 {
            proof {
                assert(names_view(plan.columns@).len() == 0);
            }
            ItemUpdate { plan: None, refresh_total }
        } else {
            ItemUpdate { plan: Some(plan), refresh_total }
        }
    }

    /// The update of one payment milestone by id; no update when no field is supplied
    /// (the caller reads the payment back with `payment_by_id_query`).
    pub fn update_payment_plan(changes: &PaymentChanges) -> (r: Option<UpdatePlan>)
        ensures
            r is None <==> !any_set(payment_update_flags(*changes)),
            r matches Some(p) ==> names_view(p.columns@) == chosen(
                payment_update_columns(),
                payment_update_flags(*changes),
            ) && p.sql@ == PAYMENT_UPDATE_HEAD@ + listed_sets(
                chosen(payment_update_columns(), payment_update_flags(*changes)),
                ", "@,
            ) + PAYMENT_UPDATE_TAIL@,
    {
        let names: Vec<&'static str> = vec![
            "due_date",
            "amount",
            "payment_type",
            "is_paid",
            "paid_date",
            "notes",
        ];
        let flags: Vec<bool> = vec![
            changes.due_date,
            changes.amount,
            changes.payment_type,
            changes.is_paid,
            changes.paid_date,
            changes.notes,
        ];
        proof {
            assert(names_view(names@) =~= payment_update_columns());
            assert(flags@ =~= payment_update_flags(*changes));
            lemma_chosen_empty(payment_update_columns(), payment_update_flags(*changes));
        }
        let plan = listed_update(PAYMENT_UPDATE_HEAD, &names, &flags, ", ", PAYMENT_UPDATE_TAIL);
        if plan.columns.len() == 0 {
            proof {
                assert(names_view(plan.columns@).len() == 0);
            }
            None
        } else {
            Some(plan)
        }
    }

    /// Reads one contract item by id.
    pub fn item_by_id_query(item_id: i64) -> (r: SqlQuery)
        ensures
            r@.sql == ITEM_BY_ID@,
            r@.params == seq![SqlValue::Int(item_id)],
    {
        let mut params: Vec<SqlParam> = Vec::new();
        params.push(SqlParam::Int(item_id));
        proof {
            assert(params_view(params@) =~= seq![SqlValue::Int(item_id)]);
        }
        SqlQuery { sql: String::from_str(ITEM_BY_ID), params }
    }

    /// Reads one payment milestone by id.
    pub fn payment_by_id_query(payment_id: i64) -> (r: SqlQuery)
        ensures
            r@.sql == PAYMENT_BY_ID@,
            r@.params == seq![SqlValue::Int(payment_id)],
    {
        let mut params: Vec<SqlParam> = Vec::new();
        params.push(SqlParam::Int(payment_id));
        proof {
            assert(params_view(params@) =~= seq![SqlValue::Int(payment_id)]);
        }
        SqlQuery { sql: String::from_str(PAYMENT_BY_ID), params }
    }
}

// ---------------------------------------------------------------------------
// The contract list
// ---------------------------------------------------------------------------

/// The filters of the contract list.
pub struct ContractFilter {
    pub q: Option<String>,
    pub contract_type: Option<String>,
    pub status: Option<String>,
    pub date_from: Option<String>,
    pub date_to: Option<String>,
}

/// 1 for a given filter, 0 for an absent one.
pub open spec fn given(b: bool) -> int {
    if b {
        1
    } else {
        0
    }
}

/// A condition whose placeholder is numbered one past the `bound` values bound
/// before it.
pub open spec fn numbered_clause(b: bool, prefix: Seq<char>, bound: int) -> Seq<Seq<char>> {
    clause_if(b, prefix + int_text(bound + 1))
}

/// The values bound before the type condition: four patterns for a search text.
pub open spec fn bound_before_type(f: ContractFilter) -> int {
    if has_text(f.q) {
        4
    } else {
        0
    }
}

/// The values bound before the status condition.
pub open spec fn bound_before_status(f: ContractFilter) -> int {
    bound_before_type(f) + given(f.contract_type is Some)
}

/// The values bound before the earliest-date condition.
pub open spec fn bound_before_from(f: ContractFilter) -> int {
    bound_before_status(f) + given(f.status is Some)
}

/// The values bound before the latest-date condition.
pub open spec fn bound_before_to(f: ContractFilter) -> int {
    bound_before_from(f) + given(f.date_from is Some)
}

/// The conditions of the contract list, in the order it writes them: a search text
/// with plain `?` placeholders, the other filters with `$n` placeholders numbered by
/// the values bound before them.
pub open spec fn contract_clauses(f: ContractFilter) -> Seq<Seq<char>> {
    seq![CONTRACT_NOT_DELETED@] + clause_if(has_text(f.q), CONTRACT_SEARCH@) + numbered_clause(
        f.contract_type is Some,
        CONTRACT_TYPE_IS@,
        bound_before_type(f),
    ) + numbered_clause(f.status is Some, CONTRACT_STATUS_IS@, bound_before_status(f))
        + numbered_clause(f.date_from is Some, SIGNED_FROM@, bound_before_from(f)) + numbered_clause(
        f.date_to is Some,
        SIGNED_TO@,
        bound_before_to(f),
    )
}

/// `%q%` four times when a search text is given.
pub open spec fn search_params(q: Option<String>) -> Seq<SqlValue> {
    if has_text(q) {
        let p = SqlValue::Text(seq!['%'] + q.unwrap()@ + seq!['%']);
        seq![p, p, p, p]
    } else {
        Seq::empty()
    }
}

/// The values bound to the conditions of the contract list, in order.
pub open spec fn contract_params(f: ContractFilter) -> Seq<SqlValue> {
    search_params(f.q) + string_param(f.contract_type) + string_param(f.status) + string_param(
        f.date_from,
    ) + string_param(f.date_to)
}

/// Sort keys of the contract list and their columns.
pub open spec fn contract_sort_view() -> Seq<(Seq<char>, Seq<char>)> {
    seq![
        ("contract_no"@, "c.contract_no"@),
        ("contract_type"@, "c.contract_type"@),
        ("title"@, "c.title"@),
        ("status"@, "c.status"@),
        ("sign_date"@, "c.sign_date"@),
        ("total_amount"@, "c.total_amount"@),
    ]
}

/// The ORDER BY column of the contract list.
pub open spec fn contract_sort_column(sort_by: Option<Seq<char>>) -> Seq<char> {
    lookup_column(sort_by, contract_sort_view(), "c.created_at"@)
}

fn push_numbered(
    conds: &mut Vec<String>,
    params: &mut Vec<SqlParam>,
    prefix: &str,
    v: &Option<String>,
)
    requires
        old(params)@.len() < 100,
    ensures
        strings_view(final(conds)@) == strings_view(old(conds)@) + numbered_clause(
            v is Some,
            prefix@,
            old(params)@.len() as int,
        ),
        params_view(final(params)@) == params_view(old(params)@) + string_param(*v),
        final(params)@.len() == old(params)@.len() + given(v is Some),
{
    let ghost c0 = strings_view(conds@);
    let ghost p0 = params_view(params@);
    match v {
        Some(t) => {
            let n = params.len();
            let mut c = String::from_str(prefix);
            push_i64(&mut c, (n + 1) as i64);
            conds.push(c);
            params.push(SqlParam::Text(String::from_str(t.as_str())));
        },
        None => {},
    }
    proof {
        assert(strings_view(conds@) =~= c0 + numbered_clause(v is Some, prefix@, old(params)@.len() as int));
        assert(params_view(params@) =~= p0 + string_param(*v));
    }
}

impl ContractRepo {
    /// The counting and page statements of the contract list: contracts not
    /// deleted, narrowed by each given filter (a non-empty search text matches the
    /// number, the title or either party), ordered by the requested column (or
    /// `c.created_at`) in `order`, then ` LIMIT $k+1 OFFSET $k+2` with the page size
    /// and offset bound after the `k` filter values.
    pub fn list_query(
        filter: &ContractFilter,
        sort_by: Option<&str>,
        order: SortOrder,
        page_size: i64,
        offset: i64,
    ) -> (r: ListQuery)
        ensures
            r.count@.sql == CONTRACT_COUNT_HEAD@ + join_with(contract_clauses(*filter), " AND "@),
            r.count@.params == contract_params(*filter),
            r.list@.sql == CONTRACT_ROWS_HEAD@ + join_with(contract_clauses(*filter), " AND "@)
                + ORDER_BY@ + contract_sort_column(key_view(sort_by)) + SPACE@ + order_text(order)
                + numbered_page(contract_params(*filter).len() as int),
            r.list@.params == contract_params(*filter) + seq![
                SqlValue::Int(page_size),
                SqlValue::Int(offset),
            ],
    {
        let mut conds: Vec<String> = Vec::new();
        let mut params: Vec<SqlParam> = Vec::new();
        conds.push(String::from_str(CONTRACT_NOT_DELETED));
        let ghost c1 = strings_view(conds@);
        proof {
            assert(c1 =~= seq![CONTRACT_NOT_DELETED@]);
            assert(params_view(params@) =~= Seq::<SqlValue>::empty());
        }
        match &filter.q {
            Some(q) => {
                if q.unicode_len() > 0 {
                    conds.push(String::from_str(CONTRACT_SEARCH));
                    params.push(SqlParam::Text(like_contains(q.as_str())));
                    params.push(SqlParam::Text(like_contains(q.as_str())));
                    params.push(SqlParam::Text(like_contains(q.as_str())));
                    params.push(SqlParam::Text(like_contains(q.as_str())));
                }
            },
            None => {},
        }
        proof {
            assert(strings_view(conds@) =~= c1 + clause_if(has_text(filter.q), CONTRACT_SEARCH@));
            assert(params_view(params@) =~= search_params(filter.q));
            assert(params@.len() == bound_before_type(*filter));
        }
        push_numbered(&mut conds, &mut params, CONTRACT_TYPE_IS, &filter.contract_type);
        push_numbered(&mut conds, &mut params, CONTRACT_STATUS_IS, &filter.status);
        push_numbered(&mut conds, &mut params, SIGNED_FROM, &filter.date_from);
        push_numbered(&mut conds, &mut params, SIGNED_TO, &filter.date_to);
        proof {
            assert(strings_view(conds@) =~= contract_clauses(*filter));
            assert(params_view(params@) =~= contract_params(*filter));
        }
        let sort_keys: Vec<(&'static str, &'static str)> = vec![
            ("contract_no", "c.contract_no"),
            ("contract_type", "c.contract_type"),
            ("title", "c.title"),
            ("status", "c.status"),
            ("sign_date", "c.sign_date"),
            ("total_amount", "c.total_amount"),
        ];
        proof {
            assert(table_view(sort_keys@) =~= contract_sort_view());
        }
        let col = pick_column(sort_by, &sort_keys, "c.created_at");
        let mut count_sql = String::from_str(CONTRACT_COUNT_HEAD);
        append_joined_strings(&mut count_sql, &conds, " AND ");
        let mut list_sql = String::from_str(CONTRACT_ROWS_HEAD);
        append_joined_strings(&mut list_sql, &conds, " AND ");
        list_sql.append(ORDER_BY);
        list_sql.append(col);
        list_sql.append(SPACE);
        list_sql.append(order.sql());
        proof {
            assert(params@.len() <= 8);
        }
        let page_text = numbered_page_text(params.len());
        list_sql.append(page_text.as_str());
        let mut list_params = copy_params(&params);
        let ghost pv = params_view(params@);
        list_params.push(SqlParam::Int(page_size));
        list_params.push(SqlParam::Int(offset));
        proof {
            assert(params_view(list_params@) =~= pv + seq![SqlValue::Int(page_size), SqlValue::Int(offset)]);
        }
        ListQuery {
            count: SqlQuery { sql: count_sql, params },
            list: SqlQuery { sql: list_sql, params: list_params },
        }
    }
}

// ---------------------------------------------------------------------------
// The contract ledger: statements with numbered placeholders
// ---------------------------------------------------------------------------

/// Items of contracts in the ledger.
pub struct ContractItemRepo;

/// Payment records of contracts in the ledger.
pub struct ContractPaymentRepo;

/// The columns the contract ledger may sort by.
pub open spec fn ledger_sort_columns() -> Seq<Seq<char>> {
    seq![
        "created_at"@,
        "contract_no"@,
        "contract_type"@,
        "status"@,
        "total_amount"@,
        "sign_date"@,
        "effective_date"@,
        "expiry_date"@,
    ]
}

/// The requested column when the ledger accepts it, else `created_at`.
pub open spec fn ledger_sort_column(sort_by: Seq<char>) -> Seq<char> {
    if ledger_sort_columns().contains(sort_by) {
        sort_by
    } else {
        "created_at"@
    }
}

/// The requested sort column when the contract ledger accepts it, else `created_at`.
pub fn validate_sort_col(sort_by: &str) -> (r: &'static str)
    ensures
        r@ == ledger_sort_column(sort_by@),
{
    let allowed: Vec<&'static str> = vec![
        "created_at",
        "contract_no",
        "contract_type",
        "status",
        "total_amount",
        "sign_date",
        "effective_date",
        "expiry_date",
    ];
    proof {
        assert(allowed@.map_values(|c: &'static str| c@) =~= ledger_sort_columns());
    }
    let r = crate::sorting::pick_listed(sort_by, &allowed, "created_at");
    proof {
        let v = allowed@.map_values(|c: &'static str| c@);
        if ledger_sort_columns().contains(sort_by@) {
            let i = choose|i: int| 0 <= i < v.len() && v[i] == sort_by@;
            assert(allowed@[i]@ == sort_by@);
        } else {
            assert forall|i: int| 0 <= i < allowed@.len() implies (#[trigger] allowed@[i])@ != sort_by@ by {
                assert(v[i] == allowed@[i]@);
            }
        }
    }
    r
}

/// The filters of the contract ledger, each NULL when absent.
pub open spec fn ledger_filter_params(
    contract_type: Option<&str>,
    status: Option<&str>,
    date_from: Option<&str>,
    date_to: Option<&str>,
    party_id: Option<&str>,
) -> Seq<SqlValue> {
    seq![
        nullable_text(contract_type),
        nullable_text(status),
        nullable_text(date_from),
        nullable_text(date_to),
        nullable_text(party_id),
    ]
}

fn ledger_filters(
    contract_type: Option<&str>,
    status: Option<&str>,
    date_from: Option<&str>,
    date_to: Option<&str>,
    party_id: Option<&str>,
) -> (r: Vec<SqlParam>)
    ensures
        params_view(r@) == ledger_filter_params(contract_type, status, date_from, date_to, party_id),
{
    let mut params: Vec<SqlParam> = Vec::new();
    params.push(nullable_param(contract_type));
    params.push(nullable_param(status));
    params.push(nullable_param(date_from));
    params.push(nullable_param(date_to));
    params.push(nullable_param(party_id));
    proof {
        assert(params_view(params@) =~= ledger_filter_params(
            contract_type,
            status,
            date_from,
            date_to,
            party_id,
        ));
    }
    params
}

/// One page of the contract ledger: contracts not deleted, each of type, status,
/// earliest and latest creation time and party filtering only when given, ordered
/// by the accepted column in the requested direction; the page size and the offset
/// `(page - 1) * page_size` are bound after the five filters.
pub fn ledger_list_query(
    contract_type: Option<&str>,
    status: Option<&str>,
    date_from: Option<&str>,
    date_to: Option<&str>,
    party_id: Option<&str>,
    page: i64,
    page_size: i64,
    sort_by: &str,
    sort_order: &str,
) -> (r: SqlQuery)
    requires
        i64::MIN <= store_offset(page, page_size) <= i64::MAX,
        page > i64::MIN,
    ensures
        r@.sql == LEDGER_LIST_HEAD@ + ledger_sort_column(sort_by@) + SPACE@ + order_text(
            requested_order(sort_order@),
        ) + LEDGER_PAGE@,
        r@.params == ledger_filter_params(contract_type, status, date_from, date_to, party_id)
            + seq![SqlValue::Int(page_size), SqlValue::Int(store_offset(page, page_size) as i64)],
{
    let col = validate_sort_col(sort_by);
    let order = SortOrder::from_request(sort_order);
    let offset = (page - 1) * page_size;
    let mut sql = String::from_str(LEDGER_LIST_HEAD);
    sql.append(col);
    sql.append(SPACE);
    sql.append(order.sql());
    sql.append(LEDGER_PAGE);
    let mut params = ledger_filters(contract_type, status, date_from, date_to, party_id);
    let ghost pv = params_view(params@);
    params.push(SqlParam::Int(page_size));
    params.push(SqlParam::Int(offset));
    proof {
        assert(params_view(params@) =~= pv + seq![
            SqlValue::Int(page_size),
            SqlValue::Int(store_offset(page, page_size) as i64),
        ]);
    }
    SqlQuery { sql, params }
}

/// The count of the contract ledger under the same five filters.
pub fn ledger_count_query(
    contract_type: Option<&str>,
    status: Option<&str>,
    date_from: Option<&str>,
    date_to: Option<&str>,
    party_id: Option<&str>,
) -> (r: SqlQuery)
    ensures
        r@.sql == LEDGER_COUNT@,
        r@.params == ledger_filter_params(contract_type, status, date_from, date_to, party_id),
{
    let params = ledger_filters(contract_type, status, date_from, date_to, party_id);
    SqlQuery { sql: String::from_str(LEDGER_COUNT), params }
}

/// `$2,$3,...`: one numbered placeholder for each kept id, after the contract id.
pub open spec fn keep_marks(n: nat) -> Seq<char>
    decreases n,
{
    if n == 0 {
        Seq::empty()
    } else if n == 1 {
        seq!['$'] + int_text(2)
    } else {
        keep_marks((n - 1) as nat) + seq![',', '$'] + int_text(n as int + 1)
    }
}

impl ContractRepo {
    /// The statement that deletes the items of a contract except the kept ones: all
    /// of its items when none is kept; the contract id and then the kept ids are
    /// bound.
    pub fn delete_items_not_in_query(contract_id: i64, keep_ids: &Vec<i64>) -> (r: SqlQuery)
        ensures
            keep_ids@.len() == 0 ==> r@.sql == "DELETE FROM contract_items WHERE contract_id = $1"@,
            keep_ids@.len() > 0 ==> r@.sql == "DELETE FROM contract_items WHERE contract_id = $1 AND id NOT IN ("@
                + keep_marks(keep_ids@.len()) + ")"@,
            r@.params == seq![SqlValue::Int(contract_id)] + keep_ids@.map_values(|id: i64| SqlValue::Int(id)),
    {
        let mut params: Vec<SqlParam> = Vec::new();
        params.push(SqlParam::Int(contract_id));
        if keep_ids.len() == 0 {
            proof {
                assert(params_view(params@) =~= seq![SqlValue::Int(contract_id)] + keep_ids@.map_values(
                    |id: i64| SqlValue::Int(id),
                ));
            }
            return SqlQuery { sql: String::from_str("DELETE FROM contract_items WHERE contract_id = $1"), params };
        }
        let mut sql = String::from_str("DELETE FROM contract_items WHERE contract_id = $1 AND id NOT IN (");
        let ghost start = sql@;
        let mut i: usize = 0;
        while i < keep_ids.len()
            invariant
                i <= keep_ids.len(),
                params@.len() == i + 1,
                sql@ == start + keep_marks(i as nat),
                params_view(params@) == seq![SqlValue::Int(contract_id)] + keep_ids@.take(i as int).map_values(
                    |id: i64| SqlValue::Int(id),
                ),
            decreases keep_ids.len() - i,
        {
            if i > 0 {
                push_char(&mut sql, ',');
            }
            push_char(&mut sql, '$');
            let ghost before = params@;
            params.push(SqlParam::Int(keep_ids[i]));
            push_digits(&mut sql, params.len() as u64);
            proof {
                if i == 0 {
                    assert(sql@ =~= start + keep_marks(1));
                } else {
                    assert(sql@ =~= start + keep_marks((i + 1) as nat));
                }
                assert(keep_ids@.take(i as int + 1) =~= keep_ids@.take(i as int).push(keep_ids@[i as int]));
                assert(params_view(params@) =~= params_view(before).push(SqlValue::Int(keep_ids@[i as int])));
                assert(params_view(params@) =~= seq![SqlValue::Int(contract_id)] + keep_ids@.take(i as int + 1).map_values(
                    |id: i64| SqlValue::Int(id),
                ));
            }
            i = i + 1;
        }
        push_char(&mut sql, ')');
        proof {
            assert(keep_ids@.take(keep_ids@.len() as int) =~= keep_ids@);
            assert(sql@ =~= "DELETE FROM contract_items WHERE contract_id = $1 AND id NOT IN ("@ + keep_marks(
                keep_ids@.len(),
            ) + ")"@) by {
                reveal_strlit(")");
            }
        }
        SqlQuery { sql, params }
    }
}

/// Creates contract `contract_no` as a draft with a zero total and returns it.
pub const CONTRACT_CREATE: &'static str = "INSERT INTO contracts (contract_no, contract_type, title, party_a, party_b, sign_date, start_date, end_date, total_amount, status, notes) VALUES ($1, $2, $3, $4, $5, $6, $7, $8, 0, 'draft', $9) RETURNING id, contract_no, contract_type, title, party_a, party_b, sign_date, start_date, end_date, total_amount, status, notes, created_by, created_at, updated_at, deleted_at";

/// Finds live contract `id`.
pub const CONTRACT_BY_ID: &'static str = "SELECT id, contract_no, contract_type, title, party_a, party_b, sign_date, start_date, end_date, total_amount, status, notes, created_by, created_at, updated_at, deleted_at FROM contracts WHERE id = $1 AND deleted_at IS NULL";

/// Soft-deletes contract `id`.
pub const CONTRACT_SOFT_DELETE: &'static str = "UPDATE contracts SET deleted_at = NOW(), updated_at = NOW() WHERE id = $1 AND deleted_at IS NULL";

/// Sets the status of live contract `id` and returns it.
pub const CONTRACT_STATUS: &'static str = "UPDATE contracts SET status = $1, updated_at = NOW() WHERE id = $2 AND deleted_at IS NULL RETURNING id, contract_no, contract_type, title, party_a, party_b, sign_date, start_date, end_date, total_amount, status, notes, created_by, created_at, updated_at, deleted_at";

/// Moves live contract `id` from `current_status` to `new_status` and returns it; nothing changes when it is in another status.
pub const CONTRACT_STATUS_IF: &'static str = "UPDATE contracts SET status = $1, updated_at = NOW() WHERE id = $2 AND status = $3 AND deleted_at IS NULL RETURNING id, contract_no, contract_type, title, party_a, party_b, sign_date, start_date, end_date, total_amount, status, notes, created_by, created_at, updated_at, deleted_at";

/// Sets the total of live contract `id` to the sum of its items' totals.
pub const CONTRACT_TOTAL_REFRESH: &'static str = "UPDATE contracts SET total_amount = (SELECT COALESCE(SUM(total_price), 0) FROM contract_items WHERE contract_id = $1), updated_at = NOW() WHERE id = $2 AND deleted_at IS NULL";

/// The items of contract `contract_id`, by id.
pub const CONTRACT_ITEMS: &'static str = "SELECT id, contract_id, pipe_type, grade, od, wt, quantity, unit_price, total_price, notes, created_at FROM contract_items WHERE contract_id = $1 ORDER BY id";

/// Deletes contract item `item_id`.
pub const CONTRACT_ITEM_DELETE: &'static str = "DELETE FROM contract_items WHERE id = $1";

/// The payment milestones of contract `contract_id`, by due date.
pub const CONTRACT_PAYMENTS: &'static str = "SELECT id, contract_id, due_date, amount, payment_type, is_paid, paid_date, notes, created_at FROM contract_payments WHERE contract_id = $1 ORDER BY due_date";

/// Deletes payment milestone `payment_id`.
pub const CONTRACT_PAYMENT_DELETE: &'static str = "DELETE FROM contract_payments WHERE id = $1";

impl ContractRepo {
    /// Creates contract `contract_no` as a draft with a zero total and returns it.
    pub fn create_query(contract_no: &str, contract_type: &str, title: &str, party_a: Option<&str>, party_b: Option<&str>, sign_date: Option<&str>, start_date: Option<&str>, end_date: Option<&str>, notes: Option<&str>) -> (r: SqlQuery)
        ensures
            r@.sql == CONTRACT_CREATE@,
            r@.params == seq![SqlValue::Text(contract_no@), SqlValue::Text(contract_type@), SqlValue::Text(title@), nullable_text(party_a), nullable_text(party_b), nullable_text(sign_date), nullable_text(start_date), nullable_text(end_date), nullable_text(notes)],
    {
        let mut params: Vec<SqlParam> = Vec::new();
        params.push(SqlParam::Text(owned(contract_no)));
        params.push(SqlParam::Text(owned(contract_type)));
        params.push(SqlParam::Text(owned(title)));
        params.push(nullable_param(party_a));
        params.push(nullable_param(party_b));
        params.push(nullable_param(sign_date));
        params.push(nullable_param(start_date));
        params.push(nullable_param(end_date));
        params.push(nullable_param(notes));
        proof {
            assert(params_view(params@) =~= seq![SqlValue::Text(contract_no@), SqlValue::Text(contract_type@), SqlValue::Text(title@), nullable_text(party_a), nullable_text(party_b), nullable_text(sign_date), nullable_text(start_date), nullable_text(end_date), nullable_text(notes)]);
        }
        SqlQuery { sql: owned(CONTRACT_CREATE), params }
    }

    /// Finds live contract `id`.
    pub fn find_by_id_query(id: i64) -> (r: SqlQuery)
        ensures
            r@.sql == CONTRACT_BY_ID@,
            r@.params == seq![SqlValue::Int(id)],
    {
        let mut params: Vec<SqlParam> = Vec::new();
        params.push(SqlParam::Int(id));
        proof {
            assert(params_view(params@) =~= seq![SqlValue::Int(id)]);
        }
        SqlQuery { sql: owned(CONTRACT_BY_ID), params }
    }

    /// Soft-deletes contract `id`.
    pub fn delete_query(id: i64) -> (r: SqlQuery)
        ensures
            r@.sql == CONTRACT_SOFT_DELETE@,
            r@.params == seq![SqlValue::Int(id)],
    {
        let mut params: Vec<SqlParam> = Vec::new();
        params.push(SqlParam::Int(id));
        proof {
            assert(params_view(params@) =~= seq![SqlValue::Int(id)]);
        }
        SqlQuery { sql: owned(CONTRACT_SOFT_DELETE), params }
    }

    /// Sets the status of live contract `id` and returns it.
    pub fn update_status_query(id: i64, status: &str) -> (r: SqlQuery)
        ensures
            r@.sql == CONTRACT_STATUS@,
            r@.params == seq![SqlValue::Text(status@), SqlValue::Int(id)],
    {
        let mut params: Vec<SqlParam> = Vec::new();
        params.push(SqlParam::Text(owned(status)));
        params.push(SqlParam::Int(id));
        proof {
            assert(params_view(params@) =~= seq![SqlValue::Text(status@), SqlValue::Int(id)]);
        }
        SqlQuery { sql: owned(CONTRACT_STATUS), params }
    }

    /// Moves live contract `id` from `current_status` to `new_status` and returns it; nothing changes when it is in another status.
    pub fn update_status_if_current_query(id: i64, current_status: &str, new_status: &str) -> (r: SqlQuery)
        ensures
            r@.sql == CONTRACT_STATUS_IF@,
            r@.params == seq![SqlValue::Text(new_status@), SqlValue::Int(id), SqlValue::Text(current_status@)],
    {
        let mut params: Vec<SqlParam> = Vec::new();
        params.push(SqlParam::Text(owned(new_status)));
        params.push(SqlParam::Int(id));
        params.push(SqlParam::Text(owned(current_status)));
        proof {
            assert(params_view(params@) =~= seq![SqlValue::Text(new_status@), SqlValue::Int(id), SqlValue::Text(current_status@)]);
        }
        SqlQuery { sql: owned(CONTRACT_STATUS_IF), params }
    }

    /// Sets the total of live contract `id` to the sum of its items' totals.
    pub fn update_total_amount_query(id: i64) -> (r: SqlQuery)
        ensures
            r@.sql == CONTRACT_TOTAL_REFRESH@,
            r@.params == seq![SqlValue::Int(id), SqlValue::Int(id)],
    {
        let mut params: Vec<SqlParam> = Vec::new();
        params.push(SqlParam::Int(id));
        params.push(SqlParam::Int(id));
        proof {
            assert(params_view(params@) =~= seq![SqlValue::Int(id), SqlValue::Int(id)]);
        }
        SqlQuery { sql: owned(CONTRACT_TOTAL_REFRESH), params }
    }

    /// The items of contract `contract_id`, by id.
    pub fn find_items_by_contract_query(contract_id: i64) -> (r: SqlQuery)
        ensures
            r@.sql == CONTRACT_ITEMS@,
            r@.params == seq![SqlValue::Int(contract_id)],
    {
        let mut params: Vec<SqlParam> = Vec::new();
        params.push(SqlParam::Int(contract_id));
        proof {
            assert(params_view(params@) =~= seq![SqlValue::Int(contract_id)]);
        }
        SqlQuery { sql: owned(CONTRACT_ITEMS), params }
    }

    /// Deletes contract item `item_id`.
    pub fn delete_item_query(item_id: i64) -> (r: SqlQuery)
        ensures
            r@.sql == CONTRACT_ITEM_DELETE@,
            r@.params == seq![SqlValue::Int(item_id)],
    {
        let mut params: Vec<SqlParam> = Vec::new();
        params.push(SqlParam::Int(item_id));
        proof {
            assert(params_view(params@) =~= seq![SqlValue::Int(item_id)]);
        }
        SqlQuery { sql: owned(CONTRACT_ITEM_DELETE), params }
    }

    /// The payment milestones of contract `contract_id`, by due date.
    pub fn find_payments_by_contract_query(contract_id: i64) -> (r: SqlQuery)
        ensures
            r@.sql == CONTRACT_PAYMENTS@,
            r@.params == seq![SqlValue::Int(contract_id)],
    {
        let mut params: Vec<SqlParam> = Vec::new();
        params.push(SqlParam::Int(contract_id));
        proof {
            assert(params_view(params@) =~= seq![SqlValue::Int(contract_id)]);
        }
        SqlQuery { sql: owned(CONTRACT_PAYMENTS), params }
    }

    /// Deletes payment milestone `payment_id`.
    pub fn delete_payment_query(payment_id: i64) -> (r: SqlQuery)
        ensures
            r@.sql == CONTRACT_PAYMENT_DELETE@,
            r@.params == seq![SqlValue::Int(payment_id)],
    {
        let mut params: Vec<SqlParam> = Vec::new();
        params.push(SqlParam::Int(payment_id));
        proof {
            assert(params_view(params@) =~= seq![SqlValue::Int(payment_id)]);
        }
        SqlQuery { sql: owned(CONTRACT_PAYMENT_DELETE), params }
    }
}

/// Each supplied field of a contract update sets the column of the same name, and
/// no other field does: a column is among those set exactly when its own field
/// is supplied.
pub proof fn lemma_contract_update_sets_named_columns(c: ContractChanges)
    ensures
        chosen(contract_update_columns(), contract_update_flags(c)).contains("title"@) == c.title,
        chosen(contract_update_columns(), contract_update_flags(c)).contains("party_a"@) == c.party_a,
        chosen(contract_update_columns(), contract_update_flags(c)).contains("party_b"@) == c.party_b,
        chosen(contract_update_columns(), contract_update_flags(c)).contains("sign_date"@) == c.sign_date,
        chosen(contract_update_columns(), contract_update_flags(c)).contains("start_date"@) == c.start_date,
        chosen(contract_update_columns(), contract_update_flags(c)).contains("end_date"@) == c.end_date,
        chosen(contract_update_columns(), contract_update_flags(c)).contains("notes"@) == c.notes,
{
    let cols = contract_update_columns();
    let flags = contract_update_flags(c);
    reveal_strlit("title");
    reveal_strlit("party_a");
    reveal_strlit("party_b");
    reveal_strlit("sign_date");
    reveal_strlit("start_date");
    reveal_strlit("end_date");
    reveal_strlit("notes");
    assert(cols.len() == 7 && flags.len() == 7);
    assert(cols[0].len() != cols[1].len());
    assert(cols[0].len() != cols[2].len());
    assert(cols[0].len() != cols[3].len());
    assert(cols[0].len() != cols[4].len());
    assert(cols[0].len() != cols[5].len());
    assert(cols[0][0] != cols[6][0]);
    assert(cols[1][6] != cols[2][6]);
    assert(cols[1].len() != cols[3].len());
    assert(cols[1].len() != cols[4].len());
    assert(cols[1].len() != cols[5].len());
    assert(cols[1].len() != cols[6].len());
    assert(cols[2].len() != cols[3].len());
    assert(cols[2].len() != cols[4].len());
    assert(cols[2].len() != cols[5].len());
    assert(cols[2].len() != cols[6].len());
    assert(cols[3].len() != cols[4].len());
    assert(cols[3].len() != cols[5].len());
    assert(cols[3].len() != cols[6].len());
    assert(cols[4].len() != cols[5].len());
    assert(cols[4].len() != cols[6].len());
    assert(cols[5].len() != cols[6].len());
    assert(cols.no_duplicates());
    lemma_chosen_exactly_flagged(cols, flags, 0);
    assert(cols[0] == "title"@ && flags[0] == c.title);
    lemma_chosen_exactly_flagged(cols, flags, 1);
    assert(cols[1] == "party_a"@ && flags[1] == c.party_a);
    lemma_chosen_exactly_flagged(cols, flags, 2);
    assert(cols[2] == "party_b"@ && flags[2] == c.party_b);
    lemma_chosen_exactly_flagged(cols, flags, 3);
    assert(cols[3] == "sign_date"@ && flags[3] == c.sign_date);
    lemma_chosen_exactly_flagged(cols, flags, 4);
    assert(cols[4] == "start_date"@ && flags[4] == c.start_date);
    lemma_chosen_exactly_flagged(cols, flags, 5);
    assert(cols[5] == "end_date"@ && flags[5] == c.end_date);
    lemma_chosen_exactly_flagged(cols, flags, 6);
    assert(cols[6] == "notes"@ && flags[6] == c.notes);
}

/// Each supplied field of a contract item update sets the column of the same name, and
/// no other field does: a column is among those set exactly when its own field
/// is supplied.
pub proof fn lemma_item_update_sets_named_columns(c: ItemChanges)
    ensures
        chosen(item_update_columns(), item_update_flags(c)).contains("pipe_type"@) == c.pipe_type,
        chosen(item_update_columns(), item_update_flags(c)).contains("grade"@) == c.grade,
        chosen(item_update_columns(), item_update_flags(c)).contains("od"@) == c.od,
        chosen(item_update_columns(), item_update_flags(c)).contains("wt"@) == c.wt,
        chosen(item_update_columns(), item_update_flags(c)).contains("quantity"@) == c.quantity,
        chosen(item_update_columns(), item_update_flags(c)).contains("unit_price"@) == c.unit_price,
        chosen(item_update_columns(), item_update_flags(c)).contains("notes"@) == c.notes,
{
    let cols = item_update_columns();
    let flags = item_update_flags(c);
    reveal_strlit("pipe_type");
    reveal_strlit("grade");
    reveal_strlit("od");
    reveal_strlit("wt");
    reveal_strlit("quantity");
    reveal_strlit("unit_price");
    reveal_strlit("notes");
    assert(cols.len() == 7 && flags.len() == 7);
    assert(cols[0].len() != cols[1].len());
    assert(cols[0].len() != cols[2].len());
    assert(cols[0].len() != cols[3].len());
    assert(cols[0].len() != cols[4].len());
    assert(cols[0].len() != cols[5].len());
    assert(cols[0].len() != cols[6].len());
    assert(cols[1].len() != cols[2].len());
    assert(cols[1].len() != cols[3].len());
    assert(cols[1].len() != cols[4].len());
    assert(cols[1].len() != cols[5].len());
    assert(cols[1][0] != cols[6][0]);
    assert(cols[2][0] != cols[3][0]);
    assert(cols[2].len() != cols[4].len());
    assert(cols[2].len() != cols[5].len());
    assert(cols[2].len() != cols[6].len());
    assert(cols[3].len() != cols[4].len());
    assert(cols[3].len() != cols[5].len());
    assert(cols[3].len() != cols[6].len());
    assert(cols[4].len() != cols[5].len());
    assert(cols[4].len() != cols[6].len());
    assert(cols[5].len() != cols[6].len());
    assert(cols.no_duplicates());
    lemma_chosen_exactly_flagged(cols, flags, 0);
    assert(cols[0] == "pipe_type"@ && flags[0] == c.pipe_type);
    lemma_chosen_exactly_flagged(cols, flags, 1);
    assert(cols[1] == "grade"@ && flags[1] == c.grade);
    lemma_chosen_exactly_flagged(cols, flags, 2);
    assert(cols[2] == "od"@ && flags[2] == c.od);
    lemma_chosen_exactly_flagged(cols, flags, 3);
    assert(cols[3] == "wt"@ && flags[3] == c.wt);
    lemma_chosen_exactly_flagged(cols, flags, 4);
    assert(cols[4] == "quantity"@ && flags[4] == c.quantity);
    lemma_chosen_exactly_flagged(cols, flags, 5);
    assert(cols[5] == "unit_price"@ && flags[5] == c.unit_price);
    lemma_chosen_exactly_flagged(cols, flags, 6);
    assert(cols[6] == "notes"@ && flags[6] == c.notes);
}

/// Each supplied field of a payment milestone update sets the column of the same name, and
/// no other field does: a column is among those set exactly when its own field
/// is supplied.
pub proof fn lemma_payment_update_sets_named_columns(c: PaymentChanges)
    ensures
        chosen(payment_update_columns(), payment_update_flags(c)).contains("due_date"@) == c.due_date,
        chosen(payment_update_columns(), payment_update_flags(c)).contains("amount"@) == c.amount,
        chosen(payment_update_columns(), payment_update_flags(c)).contains("payment_type"@) == c.payment_type,
        chosen(payment_update_columns(), payment_update_flags(c)).contains("is_paid"@) == c.is_paid,
        chosen(payment_update_columns(), payment_update_flags(c)).contains("paid_date"@) == c.paid_date,
        chosen(payment_update_columns(), payment_update_flags(c)).contains("notes"@) == c.notes,
{
    let cols = payment_update_columns();
    let flags = payment_update_flags(c);
    reveal_strlit("due_date");
    reveal_strlit("amount");
    reveal_strlit("payment_type");
    reveal_strlit("is_paid");
    reveal_strlit("paid_date");
    reveal_strlit("notes");
    assert(cols.len() == 6 && flags.len() == 6);
    assert(cols[0].len() != cols[1].len());
    assert(cols[0].len() != cols[2].len());
    assert(cols[0].len() != cols[3].len());
    assert(cols[0].len() != cols[4].len());
    assert(cols[0].len() != cols[5].len());
    assert(cols[1].len() != cols[2].len());
    assert(cols[1].len() != cols[3].len());
    assert(cols[1].len() != cols[4].len());
    assert(cols[1].len() != cols[5].len());
    assert(cols[2].len() != cols[3].len());
    assert(cols[2].len() != cols[4].len());
    assert(cols[2].len() != cols[5].len());
    assert(cols[3].len() != cols[4].len());
    assert(cols[3].len() != cols[5].len());
    assert(cols[4].len() != cols[5].len());
    assert(cols.no_duplicates());
    lemma_chosen_exactly_flagged(cols, flags, 0);
    assert(cols[0] == "due_date"@ && flags[0] == c.due_date);
    lemma_chosen_exactly_flagged(cols, flags, 1);
    assert(cols[1] == "amount"@ && flags[1] == c.amount);
    lemma_chosen_exactly_flagged(cols, flags, 2);
    assert(cols[2] == "payment_type"@ && flags[2] == c.payment_type);
    lemma_chosen_exactly_flagged(cols, flags, 3);
    assert(cols[3] == "is_paid"@ && flags[3] == c.is_paid);
    lemma_chosen_exactly_flagged(cols, flags, 4);
    assert(cols[4] == "paid_date"@ && flags[4] == c.paid_date);
    lemma_chosen_exactly_flagged(cols, flags, 5);
    assert(cols[5] == "notes"@ && flags[5] == c.notes);
}

} // verus!
