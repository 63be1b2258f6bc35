use erp_v2::contracts::{
    ledger_count_query, ledger_list_query, validate_sort_col, ContractChanges, ContractFilter,
    ContractRepo, ItemChanges, PaymentChanges,
};
use erp_v2::paging::SortOrder;
use erp_v2::query::SqlParam;

fn shown(ps: &[SqlParam]) -> Vec<String> {
    ps.iter()
        .map(|p| match p {
            SqlParam::Int(n) => format!("int:{}", n),
            SqlParam::Text(t) => format!("text:{}", t),
            SqlParam::Null => "null".to_string(),
        })
        .collect()
}

#[test]
fn first_contract_number_of_a_type() {
    assert_eq!(ContractRepo::next_contract_no("sales", None), "CT-SAL-000001");
    assert_eq!(ContractRepo::next_contract_no("purchase", None), "CT-PUR-000001");
    assert_eq!(ContractRepo::next_contract_no("lease", None), "CT-000001");
}

#[test]
fn next_contract_number_follows_the_last() {
    assert_eq!(ContractRepo::next_contract_no("sales", Some("CT-SAL-000041")), "CT-SAL-000042");
    assert_eq!(ContractRepo::next_contract_no("purchase", Some("CT-PUR-999999")), "CT-PUR-1000000");
    assert_eq!(ContractRepo::next_contract_no("purchase", Some("CT-PUR-+17")), "CT-PUR-000018");
}

#[test]
fn unreadable_last_number_counts_as_zero() {
    assert_eq!(ContractRepo::next_contract_no("sales", Some("CT-SAL-abc")), "CT-SAL-000001");
    assert_eq!(ContractRepo::next_contract_no("sales", Some("CT-SAL-")), "CT-SAL-000001");
    assert_eq!(ContractRepo::next_contract_no("other", Some("12")), "CT-000013");
}

#[test]
fn number_read_back_gives_the_sequence() {
    let n = ContractRepo::next_contract_no("sales", Some("CT-SAL-000099"));
    let seq: i64 = n.rsplit('-').next().unwrap().parse().unwrap();
    assert_eq!(seq, 100);
}

#[test]
fn greatest_number_lookup_uses_the_prefix() {
    let q = ContractRepo::max_no_query("purchase");
    assert_eq!(q.sql, "SELECT MAX(contract_no) FROM contracts WHERE contract_no LIKE $1");
    assert_eq!(shown(&q.params), vec!["text:CT-PUR%"]);
}

#[test]
fn contract_update_sets_supplied_fields() {
    let c = ContractChanges {
        title: true,
        party_a: false,
        party_b: true,
        sign_date: false,
        start_date: false,
        end_date: false,
        notes: false,
    };
    let p = ContractRepo::update_plan(&c);
    assert_eq!(p.columns, vec!["title", "party_b"]);
    assert!(p.sql.starts_with("UPDATE contracts SET updated_at = NOW(), title = ?, party_b = ? WHERE id = ? AND deleted_at IS NULL RETURNING id,"));
}

#[test]
fn item_update_with_nothing_to_set() {
    let c = ItemChanges { pipe_type: false, grade: false, od: false, wt: false, quantity: false, unit_price: false, notes: false };
    let u = ContractRepo::update_item_plan(&c);
    assert!(u.plan.is_none());
    assert!(!u.refresh_total);
    let q = ContractRepo::item_by_id_query(5);
    assert!(q.sql.ends_with("FROM contract_items WHERE id = $1"));
    assert_eq!(shown(&q.params), vec!["int:5"]);
}

#[test]
fn item_update_of_the_price_refreshes_the_total() {
    let c = ItemChanges { pipe_type: false, grade: true, od: false, wt: false, quantity: false, unit_price: true, notes: false };
    let u = ContractRepo::update_item_plan(&c);
    let p = u.plan.unwrap();
    assert!(u.refresh_total);
    assert_eq!(p.columns, vec!["grade", "unit_price"]);
    assert!(p.sql.starts_with("UPDATE contract_items SET grade = ?,  unit_price = ? WHERE id = ? RETURNING id,"));
}

#[test]
fn payment_update_plans() {
    let none = PaymentChanges { due_date: false, amount: false, payment_type: false, is_paid: false, paid_date: false, notes: false };
    assert!(ContractRepo::update_payment_plan(&none).is_none());
    let some = PaymentChanges { due_date: false, amount: false, payment_type: false, is_paid: true, paid_date: true, notes: false };
    let p = ContractRepo::update_payment_plan(&some).unwrap();
    assert_eq!(p.columns, vec!["is_paid", "paid_date"]);
    assert!(p.sql.starts_with("UPDATE contract_payments SET is_paid = ?,  paid_date = ? WHERE id = ? RETURNING"));
}

#[test]
fn contract_list_numbers_placeholders_after_the_search() {
    let f = ContractFilter {
        q: Some("steel".to_string()),
        contract_type: Some("sales".to_string()),
        status: None,
        date_from: Some("2024-01-01".to_string()),
        date_to: None,
    };
    let q = ContractRepo::list_query(&f, Some("title"), SortOrder::Asc, 20, 0);
    assert_eq!(
        q.count.sql,
        "SELECT COUNT(*) as cnt FROM contracts c WHERE c.deleted_at IS NULL AND (c.contract_no LIKE ? OR c.title LIKE ? OR c.party_a LIKE ? OR c.party_b LIKE ?) AND c.contract_type = $5 AND c.sign_date >= $6"
    );
    assert!(q.list.sql.ends_with("ORDER BY c.title ASC LIMIT $7 OFFSET $8"));
    assert_eq!(
        shown(&q.list.params),
        vec!["text:%steel%", "text:%steel%", "text:%steel%", "text:%steel%", "text:sales", "text:2024-01-01", "int:20", "int:0"]
    );
}

#[test]
fn contract_list_defaults_to_creation_order() {
    let f = ContractFilter { q: None, contract_type: None, status: Some("draft".to_string()), date_from: None, date_to: None };
    let q = ContractRepo::list_query(&f, Some("party_a"), SortOrder::Desc, 10, 10);
    assert_eq!(q.count.sql, "SELECT COUNT(*) as cnt FROM contracts c WHERE c.deleted_at IS NULL AND c.status = $1");
    assert!(q.list.sql.ends_with("ORDER BY c.created_at DESC LIMIT $2 OFFSET $3"));
}

#[test]
fn ledger_sort_allowlist() {
    assert_eq!(validate_sort_col("expiry_date"), "expiry_date");
    assert_eq!(validate_sort_col("title"), "created_at");
}

#[test]
fn ledger_page() {
    let q = ledger_list_query(Some("sales"), None, None, Some("2024-12-31"), None, 2, 50, "status", "desc");
    assert!(q.sql.ends_with("ORDER BY status DESC LIMIT ?6 OFFSET ?7"));
    assert_eq!(shown(&q.params), vec!["text:sales", "null", "null", "text:2024-12-31", "null", "int:50", "int:50"]);
    let c = ledger_count_query(None, None, None, None, Some("p1"));
    assert_eq!(shown(&c.params), vec!["null", "null", "null", "null", "text:p1"]);
}

#[test]
fn kept_items_are_spared() {
    let all = ContractRepo::delete_items_not_in_query(9, &vec![]);
    assert_eq!(all.sql, "DELETE FROM contract_items WHERE contract_id = $1");
    assert_eq!(shown(&all.params), vec!["int:9"]);
    let some = ContractRepo::delete_items_not_in_query(9, &vec![3, 4, 8]);
    assert_eq!(some.sql, "DELETE FROM contract_items WHERE contract_id = $1 AND id NOT IN ($2,$3,$4)");
    assert_eq!(shown(&some.params), vec!["int:9", "int:3", "int:4", "int:8"]);
}
