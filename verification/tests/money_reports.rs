use erp_v2::catalog::{list_items_query, ItemFilter};
use erp_v2::error::{AppError, ErrorCode};
use erp_v2::ledger::finance_summary;
use erp_v2::money::{
    decremented_quantity, decremented_text, incremented_quantity, incremented_text, parse_amount,
    sum_amount_texts, AmountError,
};
use erp_v2::reports::{
    _unused, category_label, check_report_table, pending_references, pending_total, status_totals,
    ReportRepo,
};
use erp_v2::response::{new_request_id, total_pages, ApiResponse, PaginatedResponse};
use erp_v2::trend::{group_sales_trend, trend_row};

#[test]
fn amounts_sum_exactly() {
    let rows = vec!["1.50".to_string(), "2.25".to_string(), "-0.75".to_string()];
    let a = sum_amount_texts(&rows).ok().unwrap();
    let r = trend_row("2024-05".to_string(), 3, &rows).ok().unwrap();
    assert_eq!(r.total_amount, "3.00");
    assert_eq!(r.month, "2024-05");
    assert_eq!(r.order_count, 3);
    assert_eq!(a.mantissa, 300);
    assert_eq!(a.scale, 2);
}

#[test]
fn empty_sum_is_zero() {
    let r = trend_row("2024-06".to_string(), 0, &vec![]).ok().unwrap();
    assert_eq!(r.total_amount, "0");
}

#[test]
fn unreadable_amount_is_a_validation_error() {
    match sum_amount_texts(&vec!["1".to_string(), "one".to_string()]) {
        Err(AmountError::Invalid(AppError::Coded(ErrorCode::Validation, m))) => assert_eq!(m, "金额格式错误"),
        _ => panic!("expected an invalid amount"),
    }
    assert!(parse_amount("12.5x").is_err());
}

#[test]
fn overflowing_sum_is_reported() {
    let rows = vec!["79228162514264337593543950335".to_string(), "1".to_string()];
    assert!(matches!(sum_amount_texts(&rows), Err(AmountError::Overflow)));
}

#[test]
fn stock_balance_moves() {
    let d = parse_amount("2.5").ok().unwrap();
    let up = incremented_quantity(Some("10"), d).ok().unwrap();
    assert_eq!((up.mantissa, up.scale), (125, 1));
    let fresh = incremented_quantity(None, d).ok().unwrap();
    assert_eq!((fresh.mantissa, fresh.scale), (25, 1));
    let down = decremented_quantity(Some("1"), d).ok().unwrap();
    assert_eq!((down.mantissa, down.scale), (-15, 1));
    assert!(down.negative);
}

#[test]
fn stored_quantity_texts() {
    let d = parse_amount("2.5").ok().unwrap();
    assert_eq!(incremented_text(Some("10"), d).ok().unwrap(), "12.5");
    assert_eq!(incremented_text(None, d).ok().unwrap(), "2.5");
    assert_eq!(decremented_text(Some("1"), d).ok().unwrap(), "-1.5");
    assert_eq!(decremented_text(Some("0.25"), d).ok().unwrap(), "-2.25");
    assert_eq!(incremented_text(Some("0.001"), parse_amount("1.5").ok().unwrap()).ok().unwrap(), "1.501");
    assert!(matches!(incremented_text(Some("ten"), d), Err(AmountError::Invalid(_))));
    let huge = parse_amount("79228162514264337593543950335").ok().unwrap();
    assert!(matches!(incremented_text(Some("79228162514264337593543950335"), huge), Err(AmountError::Overflow)));
}

#[test]
fn decrement_after_increment_restores_the_quantity() {
    let d = parse_amount("2.75").ok().unwrap();
    for before in ["10", "0", "-3.5", "1.000"] {
        let t1 = incremented_text(Some(before), d).ok().unwrap();
        let t2 = decremented_text(Some(&t1), d).ok().unwrap();
        let a = parse_amount(before).ok().unwrap();
        let b = parse_amount(&t2).ok().unwrap();
        let scale = a.scale.max(b.scale);
        let norm = |x: erp_v2::money::Amount| x.mantissa * 10i128.pow(scale - x.scale);
        assert_eq!(norm(a), norm(b));
    }
    let t1 = incremented_text(None, d).ok().unwrap();
    assert_eq!(decremented_text(Some(&t1), d).ok().unwrap(), "0.00");
}

#[test]
fn negative_zero_is_kept() {
    let zero = parse_amount("0").ok().unwrap();
    assert!(!zero.negative);
    assert_eq!(decremented_text(None, zero).ok().unwrap(), "-0");
    let neg_zero = parse_amount("-0").ok().unwrap();
    assert!(!neg_zero.negative);
    assert_eq!(incremented_text(None, parse_amount("-0.00").ok().unwrap()).ok().unwrap(), "0.00");
}

#[test]
fn status_report_starts_with_the_total() {
    let r = status_totals(vec![("active".to_string(), 4), ("archived".to_string(), 2)]);
    assert_eq!(r[0], ("total".to_string(), 6));
    assert_eq!(r[1], ("active".to_string(), 4));
    assert_eq!(r[2], ("archived".to_string(), 2));
}

#[test]
fn report_labels_and_tables() {
    assert_eq!(category_label(None), "uncategorized");
    assert_eq!(category_label(Some("pipe".to_string())), "pipe");
    assert!(check_report_table("sales_orders").is_ok());
    match check_report_table("users") {
        Err(AppError::BadRequest(m)) => assert_eq!(m, "Invalid table: users"),
        _ => panic!("expected a refusal"),
    }
    assert_eq!(pending_total(1, 2, 3, 4), 10);
}

#[test]
fn period_grouping() {
    assert_eq!(ReportRepo::period_group_expr("yearly"), "strftime('%Y', order_date)");
    assert_eq!(ReportRepo::period_group_expr("weekly"), "strftime('%Y-%m', order_date)");
    assert!(ReportRepo::period_group_expr("quarterly").contains("-Q"));
}

#[test]
fn pending_approvals_keep_their_order() {
    let inb = vec![(1, "IN-1".to_string(), "inbound".to_string())];
    let out = vec![(2, "OUT-1".to_string(), "outbound".to_string()), (3, "OUT-2".to_string(), "outbound".to_string())];
    let po: Vec<(i64, String, String)> = vec![];
    let so = vec![(4, "SO-1".to_string(), "sales_order".to_string())];
    let r = pending_references(&inb, &out, &po, &so);
    let ids: Vec<i64> = r.iter().map(|p| p.id).collect();
    assert_eq!(ids, vec![1, 2, 3, 4]);
    assert_eq!(r[3].reference_type, "sales_order");
}

#[test]
fn trend_groups_months_newest_first() {
    let rows = vec![
        ("2024-03".to_string(), 1, 10, "5".to_string()),
        ("2024-05".to_string(), 1, 11, "6".to_string()),
        ("2024-03".to_string(), 1, 12, "7".to_string()),
    ];
    let g = group_sales_trend(&rows);
    assert_eq!(g.len(), 2);
    assert_eq!(g[0].0, "2024-05");
    assert_eq!(g[1].0, "2024-03");
    assert_eq!(g[1].1, 2);
    assert_eq!(g[1].2.iter().map(|x| x.0).collect::<Vec<_>>(), vec![10, 12]);
}

#[test]
fn finance_summary_totals_per_account() {
    let accounts = vec![
        (1, "1001".to_string(), "Cash".to_string(), "asset".to_string()),
        (2, "2001".to_string(), "Payable".to_string(), "liability".to_string()),
    ];
    let lines = vec![
        (1, "10.00".to_string(), "0".to_string()),
        (2, "0".to_string(), "4.5".to_string()),
        (1, "2.5".to_string(), "1".to_string()),
    ];
    let r = finance_summary(&accounts, &lines).unwrap();
    assert_eq!(r[0].total_debit, "12.50");
    assert_eq!(r[0].total_credit, "1");
    assert_eq!(r[1].total_credit, "4.5");
}

#[test]
fn request_ids_are_fresh_and_well_formed() {
    let a = new_request_id();
    let b = new_request_id();
    assert_eq!(a.len(), 36);
    assert!(a.starts_with("req_"));
    assert!(a[4..].chars().all(|c| c.is_ascii_hexdigit() && !c.is_ascii_uppercase()));
    assert_eq!(&a[16..17], "4");
    assert_ne!(a, b);
}

#[test]
fn page_counts() {
    assert_eq!(total_pages(0, 10), 0);
    assert_eq!(total_pages(1, 10), 1);
    assert_eq!(total_pages(10, 10), 1);
    assert_eq!(total_pages(11, 10), 2);
    assert_eq!(total_pages(5, 0), 0);
    assert_eq!(total_pages(-25, 10), -1);
    assert_eq!(total_pages(7, -2), -2);
}

#[test]
fn responses_carry_their_data() {
    let r = ApiResponse::ok(5u8);
    assert!(r.success);
    assert_eq!(r.data, 5);
    let p = PaginatedResponse::ok(vec!["a", "b"], 21, 3, 10);
    assert_eq!(p.meta.total_pages, 3);
    assert_eq!(p.data.items.len(), 2);
    assert!(ApiResponse::created(()).request_id.starts_with("req_"));
}

#[test]
fn item_list_query_pages() {
    let f = ItemFilter { sku: None, name: Some("bolt"), category: None, status: Some("active") };
    let q = list_items_query(&f, 3, 20);
    assert_eq!(q.list.params.len(), 4);
    assert!(q.count.sql.ends_with("AND name LIKE ? AND status = ?"));
}

#[test]
fn spare_error_path_always_fails() {
    match _unused() {
        Err(AppError::Coded(c, m)) => {
            assert!(c == ErrorCode::Internal);
            assert_eq!(m, "unused");
        }
        _ => panic!("expected the internal error"),
    }
}
