use erp_v2::error::{AppError, ErrorCode};
use erp_v2::outcomes::{
    record_not_found, require_changed, require_created, require_entry_changed, require_entry_found,
    require_found, require_record_changed, BookEntry, Created, Missing, Record,
};

fn coded(e: AppError) -> (ErrorCode, String) {
    match e {
        AppError::Coded(c, m) => (c, m),
        _ => panic!("not a coded error"),
    }
}

fn not_found(e: AppError) -> String {
    match e {
        AppError::NotFound(m) => m,
        _ => panic!("not a not-found error"),
    }
}

#[test]
fn changed_rows_succeed() {
    assert!(require_changed(1, Missing::Supplier).is_ok());
    assert!(require_changed(3, Missing::DraftJournalEntry).is_ok());
}

#[test]
fn no_changed_row_is_the_missing_record() {
    let (c, m) = coded(require_changed(0, Missing::Supplier).unwrap_err());
    assert!(c == ErrorCode::SupplierNotFound);
    assert_eq!(m, "供应商未找到");
    let (c, m) = coded(require_changed(0, Missing::Customer).unwrap_err());
    assert!(c == ErrorCode::CustomerNotFound);
    assert_eq!(m, "客户未找到");
    let (c, m) = coded(require_changed(0, Missing::Warehouse).unwrap_err());
    assert!(c == ErrorCode::NotFound);
    assert_eq!(m, "仓库未找到");
    let (c, m) = coded(require_changed(0, Missing::DraftJournalEntry).unwrap_err());
    assert!(c == ErrorCode::JournalNotFound);
    assert_eq!(m, "日记账未找到或状态不可变更");
    let (c, m) = coded(require_changed(0, Missing::EditableSalesOrder).unwrap_err());
    assert!(c == ErrorCode::OrderCannotModify);
    assert_eq!(m, "销售订单不可编辑（不存在或非 draft 状态）");
    let (c, m) = coded(require_changed(0, Missing::ReleasableReservation).unwrap_err());
    assert!(c == ErrorCode::NotFound);
    assert_eq!(m, "预留记录未找到或已释放");
    let (c, m) = coded(require_changed(0, Missing::InboundOrder).unwrap_err());
    assert!(c == ErrorCode::OrderNotFound);
    assert_eq!(m, "入库单未找到");
}

#[test]
fn lookups_pass_rows_through() {
    assert_eq!(require_found(Some(7i64), Missing::Account).ok(), Some(7));
    let (c, m) = coded(require_found::<i64>(None, Missing::Account).unwrap_err());
    assert!(c == ErrorCode::AccountNotFound);
    assert_eq!(m, "会计科目未找到");
}

#[test]
fn rows_not_read_back_are_internal_errors() {
    assert_eq!(require_created(Some("row"), Created::Item).ok(), Some("row"));
    let (c, m) = coded(require_created::<i64>(None, Created::PurchaseOrder).unwrap_err());
    assert!(c == ErrorCode::Internal);
    assert_eq!(m, "采购订单创建后读取失败");
}

#[test]
fn records_missing_by_id_name_the_id() {
    assert_eq!(not_found(record_not_found(Record::Contract, "c-42")), "Contract c-42 not found");
    assert_eq!(
        not_found(record_not_found(Record::ContractPayment, "p1")),
        "Contract payment p1 not found"
    );
    assert!(require_record_changed(1, Record::SeamlessPipe, "x").is_ok());
    assert_eq!(
        not_found(require_record_changed(0, Record::SeamlessPipe, "sp-9").unwrap_err()),
        "Seamless pipe sp-9 not found"
    );
}

#[test]
fn order_book_entries_missing_without_id() {
    assert!(require_entry_changed(2, BookEntry::Supplier).is_ok());
    assert_eq!(not_found(require_entry_changed(0, BookEntry::Supplier).unwrap_err()), "Supplier not found");
    assert_eq!(
        not_found(require_entry_changed(0, BookEntry::PurchaseOrderItem).unwrap_err()),
        "Purchase order item not found"
    );
    assert_eq!(require_entry_found(Some(3u8), BookEntry::SalesOrder).ok(), Some(3));
    assert_eq!(not_found(require_entry_found::<u8>(None, BookEntry::SalesOrder).unwrap_err()), "Sales order not found");
    assert_eq!(not_found(BookEntry::Customer.not_found()), "Customer not found");
}
