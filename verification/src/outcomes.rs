//! How the repositories turn what a statement reports into a result: a guarded update
//! or delete that changed no row is a coded "not found" (or "cannot change") error, a
//! lookup that found nothing is the same error, and a row that cannot be read back
//! right after it was created is an internal error.
use vstd::prelude::*;

use crate::error::{AppError, AppErrorView, ErrorCode};

verus! {

/// A record whose absence the repositories report with a coded error.
#[derive(Clone, Copy, Debug, PartialEq, Eq, Structural)]
pub enum Missing {
    Account,
    CheckSession,
    CheckDetail,
    Customer,
    Supplier,
    Item,
    Location,
    Warehouse,
    Invoice,
    InboundOrder,
    OutboundOrder,
    PurchaseOrder,
    SalesOrder,
    Workflow,
    ApprovalInstance,
    /// A task that is not yet completed.
    OpenTask,
    User,
    /// A reservation that can still be cancelled.
    CancellableReservation,
    /// A reservation that can still be released.
    ReleasableReservation,
    /// A journal entry still in draft, whose status can change.
    DraftJournalEntry,
    /// A sales order still in draft, which can be edited.
    EditableSalesOrder,
    /// A sales order still in draft, which can be deleted.
    DeletableSalesOrder,
}

impl Missing {
    /// The error code reported for the missing record.
    pub open spec fn code(self) -> ErrorCode {
        match self {
            Missing::Account => ErrorCode::AccountNotFound,
            Missing::CheckSession | Missing::CheckDetail => ErrorCode::CheckNotFound,
            Missing::Customer => ErrorCode::CustomerNotFound,
            Missing::Supplier => ErrorCode::SupplierNotFound,
            Missing::Item => ErrorCode::ItemNotFound,
            Missing::Location => ErrorCode::LocationNotFound,
            Missing::Invoice => ErrorCode::InvoiceNotFound,
            Missing::InboundOrder | Missing::OutboundOrder | Missing::PurchaseOrder
            | Missing::SalesOrder => ErrorCode::OrderNotFound,
            Missing::Workflow => ErrorCode::WorkflowNotFound,
            Missing::DraftJournalEntry => ErrorCode::JournalNotFound,
            Missing::EditableSalesOrder | Missing::DeletableSalesOrder => ErrorCode::OrderCannotModify,
            Missing::Warehouse | Missing::ApprovalInstance | Missing::OpenTask | Missing::User
            | Missing::CancellableReservation | Missing::ReleasableReservation => ErrorCode::NotFound,
        }
    }

    /// The message reported for the missing record.
    pub open spec fn message(self) -> Seq<char> {
        match self {
            Missing::Account => "会计科目未找到"@,
            Missing::CheckSession => "盘点单未找到"@,
            Missing::CheckDetail => "盘点明细未找到"@,
            Missing::Customer => "客户未找到"@,
            Missing::Supplier => "供应商未找到"@,
            Missing::Item => "商品未找到"@,
            Missing::Location => "库位未找到"@,
            Missing::Warehouse => "仓库未找到"@,
            Missing::Invoice => "发票未找到"@,
            Missing::InboundOrder => "入库单未找到"@,
            Missing::OutboundOrder => "出库单未找到"@,
            Missing::PurchaseOrder => "采购订单未找到"@,
            Missing::SalesOrder => "销售订单未找到"@,
            Missing::Workflow => "审批流未找到"@,
            Missing::ApprovalInstance => "审批实例未找到"@,
            Missing::OpenTask => "任务未找到或已办结"@,
            Missing::User => "用户未找到"@,
            Missing::CancellableReservation => "预留记录未找到或已取消"@,
            Missing::ReleasableReservation => "预留记录未找到或已释放"@,
            Missing::DraftJournalEntry => "日记账未找到或状态不可变更"@,
            Missing::EditableSalesOrder => "销售订单不可编辑（不存在或非 draft 状态）"@,
            Missing::DeletableSalesOrder => "销售订单不可删除（不存在或非 draft 状态）"@,
        }
    }

    /// The error as the contracts see it.
    pub open spec fn error_view(self) -> AppErrorView {
        AppErrorView::Coded(self.code(), self.message())
    }

    /// The coded error reported for the missing record.
    pub fn error(self) -> (r: AppError)
        ensures
            r@ == self.error_view(),
    {
        match self {
            Missing::Account => AppError::new(ErrorCode::AccountNotFound, "会计科目未找到"),
            Missing::CheckSession => AppError::new(ErrorCode::CheckNotFound, "盘点单未找到"),
            Missing::CheckDetail => AppError::new(ErrorCode::CheckNotFound, "盘点明细未找到"),
            Missing::Customer => AppError::new(ErrorCode::CustomerNotFound, "客户未找到"),
            Missing::Supplier => AppError::new(ErrorCode::SupplierNotFound, "供应商未找到"),
            Missing::Item => AppError::new(ErrorCode::ItemNotFound, "商品未找到"),
            Missing::Location => AppError::new(ErrorCode::LocationNotFound, "库位未找到"),
            Missing::Warehouse => AppError::new(ErrorCode::NotFound, "仓库未找到"),
            Missing::Invoice => AppError::new(ErrorCode::InvoiceNotFound, "发票未找到"),
            Missing::InboundOrder => AppError::new(ErrorCode::OrderNotFound, "入库单未找到"),
            Missing::OutboundOrder => AppError::new(ErrorCode::OrderNotFound, "出库单未找到"),
            Missing::PurchaseOrder => AppError::new(ErrorCode::OrderNotFound, "采购订单未找到"),
            Missing::SalesOrder => AppError::new(ErrorCode::OrderNotFound, "销售订单未找到"),
            Missing::Workflow => AppError::new(ErrorCode::WorkflowNotFound, "审批流未找到"),
            Missing::ApprovalInstance => AppError::new(ErrorCode::NotFound, "审批实例未找到"),
            Missing::OpenTask => AppError::new(ErrorCode::NotFound, "任务未找到或已办结"),
            Missing::User => AppError::new(ErrorCode::NotFound, "用户未找到"),
            Missing::CancellableReservation => AppError::new(
                ErrorCode::NotFound,
                "预留记录未找到或已取消",
            ),
            Missing::ReleasableReservation => AppError::new(
                ErrorCode::NotFound,
                "预留记录未找到或已释放",
            ),
            Missing::DraftJournalEntry => AppError::new(
                ErrorCode::JournalNotFound,
                "日记账未找到或状态不可变更",
            ),
            Missing::EditableSalesOrder => AppError::new(
                ErrorCode::OrderCannotModify,
                "销售订单不可编辑（不存在或非 draft 状态）",
            ),
            Missing::DeletableSalesOrder => AppError::new(
                ErrorCode::OrderCannotModify,
                "销售订单不可删除（不存在或非 draft 状态）",
            ),
        }
    }
}

/// A record that is read back right after it is created.
#[derive(Clone, Copy, Debug, PartialEq, Eq, Structural)]
pub enum Created {
    Warehouse,
    Payment,
    Account,
    Supplier,
    InboundOrder,
    OutboundOrder,
    Invoice,
    Item,
    Customer,
    Location,
    User,
    PurchaseOrder,
}

impl Created {
    /// The message reported when the new record cannot be read back.
    pub open spec fn message(self) -> Seq<char> {
        match self {
            Created::Warehouse => "仓库创建后读取失败"@,
            Created::Payment => "付款创建后读取失败"@,
            Created::Account => "会计科目创建后读取失败"@,
            Created::Supplier => "供应商创建后读取失败"@,
            Created::InboundOrder => "入库单创建后读取失败"@,
            Created::OutboundOrder => "出库单创建后读取失败"@,
            Created::Invoice => "发票创建后读取失败"@,
            Created::Item => "商品创建后读取失败"@,
            Created::Customer => "客户创建后读取失败"@,
            Created::Location => "库位创建后读取失败"@,
            Created::User => "用户创建后读取失败"@,
            Created::PurchaseOrder => "采购订单创建后读取失败"@,
        }
    }

    /// The internal error reported when the new record cannot be read back.
    pub fn error(self) -> (r: AppError)
        ensures
            r@ == AppErrorView::Coded(ErrorCode::Internal, self.message()),
    {
        let m: &str = match self {
            Created::Warehouse => "仓库创建后读取失败",
            Created::Payment => "付款创建后读取失败",
            Created::Account => "会计科目创建后读取失败",
            Created::Supplier => "供应商创建后读取失败",
            Created::InboundOrder => "入库单创建后读取失败",
            Created::OutboundOrder => "出库单创建后读取失败",
            Created::Invoice => "发票创建后读取失败",
            Created::Item => "商品创建后读取失败",
            Created::Customer => "客户创建后读取失败",
            Created::Location => "库位创建后读取失败",
            Created::User => "用户创建后读取失败",
            Created::PurchaseOrder => "采购订单创建后读取失败",
        };
        AppError::new(ErrorCode::Internal, m)
    }
}

/// The result of a guarded update or delete that reported `rows_affected` changed rows:
/// success when it changed a row, else the error for `missing`.
pub fn require_changed(rows_affected: u64, missing: Missing) -> (r: Result<(), AppError>)
    ensures
        r is Ok <==> rows_affected > 0,
        r matches Err(e) ==> e@ == missing.error_view(),
{
    if rows_affected == 0 {
        Err(missing.error())
    } else {
        Ok(())
    }
}

/// The result of a lookup: the row when there is one, else the error for `missing`.
pub fn require_found<T>(row: Option<T>, missing: Missing) -> (r: Result<T, AppError>)
    ensures
        row matches Some(v) ==> r == Ok::<T, AppError>(v),
        row is None ==> (r matches Err(e) && e@ == missing.error_view()),
{
    match row {
        Some(v) => Ok(v),
        None => Err(missing.error()),
    }
}

/// The result of reading a record back right after creating it: the row when there
/// is one, else the internal error for `created`.
pub fn require_created<T>(row: Option<T>, created: Created) -> (r: Result<T, AppError>)
    ensures
        row matches Some(v) ==> r == Ok::<T, AppError>(v),
        row is None ==> (r matches Err(e) && e@ == AppErrorView::Coded(
            ErrorCode::Internal,
            created.message(),
        )),
{
    match row {
        Some(v) => Ok(v),
        None => Err(created.error()),
    }
}

/// A record of the pipe, contract and quality repositories, reported missing by id.
#[derive(Clone, Copy, Debug, PartialEq, Eq, Structural)]
pub enum Record {
    Attachment,
    ContractPayment,
    Contract,
    InboundRecord,
    InventoryCheck,
    LabelTemplate,
    OutboundRecord,
    QualityCert,
    ScreenPipe,
    SeamlessPipe,
}

impl Record {
    /// The name the message gives the record.
    pub open spec fn label(self) -> Seq<char> {
        match self {
            Record::Attachment => "Attachment"@,
            Record::ContractPayment => "Contract payment"@,
            Record::Contract => "Contract"@,
            Record::InboundRecord => "Inbound record"@,
            Record::InventoryCheck => "Inventory check"@,
            Record::LabelTemplate => "Label template"@,
            Record::OutboundRecord => "Outbound record"@,
            Record::QualityCert => "Quality cert"@,
            Record::ScreenPipe => "Screen pipe"@,
            Record::SeamlessPipe => "Seamless pipe"@,
        }
    }

    /// The name the message gives the record.
    pub fn name(self) -> (r: &'static str)
        ensures
            r@ == self.label(),
    {
        match self {
            Record::Attachment => "Attachment",
            Record::ContractPayment => "Contract payment",
            Record::Contract => "Contract",
            Record::InboundRecord => "Inbound record",
            Record::InventoryCheck => "Inventory check",
            Record::LabelTemplate => "Label template",
            Record::OutboundRecord => "Outbound record",
            Record::QualityCert => "Quality cert",
            Record::ScreenPipe => "Screen pipe",
            Record::SeamlessPipe => "Seamless pipe",
        }
    }
}

/// `"<record> <id> not found"`, the not-found error of a record looked up by id.
pub fn record_not_found(record: Record, id: &str) -> (r: AppError)
    ensures
        r@ == AppErrorView::NotFound(record.label() + " "@ + id@ + " not found"@),
{
    let mut m = String::from_str(record.name());
    m.append(" ");
    m.append(id);
    m.append(" not found");
    AppError::NotFound(m)
}

/// The result of a guarded update or delete of a record looked up by id: success when
/// it changed a row, else the record's not-found error.
pub fn require_record_changed(rows_affected: u64, record: Record, id: &str) -> (r: Result<
    (),
    AppError,
>)
    ensures
        r is Ok <==> rows_affected > 0,
        r matches Err(e) ==> e@ == AppErrorView::NotFound(
            record.label() + " "@ + id@ + " not found"@,
        ),
{
    if rows_affected == 0 {
        Err(record_not_found(record, id))
    } else {
        Ok(())
    }
}

/// A record of the order books, reported missing without its id.
#[derive(Clone, Copy, Debug, PartialEq, Eq, Structural)]
pub enum BookEntry {
    Supplier,
    Customer,
    PurchaseOrder,
    SalesOrder,
    PurchaseOrderItem,
    SalesOrderItem,
}

impl BookEntry {
    /// The not-found message of the entry.
    pub open spec fn message(self) -> Seq<char> {
        match self {
            BookEntry::Supplier => "Supplier not found"@,
            BookEntry::Customer => "Customer not found"@,
            BookEntry::PurchaseOrder => "Purchase order not found"@,
            BookEntry::SalesOrder => "Sales order not found"@,
            BookEntry::PurchaseOrderItem => "Purchase order item not found"@,
            BookEntry::SalesOrderItem => "Sales order item not found"@,
        }
    }

    /// The not-found error of the entry.
    pub fn not_found(self) -> (r: AppError)
        ensures
            r@ == AppErrorView::NotFound(self.message()),
    {
        let m: &str = match self {
            BookEntry::Supplier => "Supplier not found",
            BookEntry::Customer => "Customer not found",
            BookEntry::PurchaseOrder => "Purchase order not found",
            BookEntry::SalesOrder => "Sales order not found",
            BookEntry::PurchaseOrderItem => "Purchase order item not found",
            BookEntry::SalesOrderItem => "Sales order item not found",
        };
        AppError::NotFound(String::from_str(m))
    }
}

/// The result of an update or delete of an order-book entry: success when it changed a
/// row, else the entry's not-found error.
pub fn require_entry_changed(rows_affected: u64, entry: BookEntry) -> (r: Result<(), AppError>)
    ensures
        r is Ok <==> rows_affected > 0,
        r matches Err(e) ==> e@ == AppErrorView::NotFound(entry.message()),
{
    if rows_affected == 0 {
        Err(entry.not_found())
    } else {
        Ok(())
    }
}

/// The result of looking up an order-book entry: the row when there is one, else the
/// entry's not-found error.
pub fn require_entry_found<T>(row: Option<T>, entry: BookEntry) -> (r: Result<T, AppError>)
    ensures
        row matches Some(v) ==> r == Ok::<T, AppError>(v),
        row is None ==> (r matches Err(e) && e@ == AppErrorView::NotFound(entry.message())),
{
    match row {
        Some(v) => Ok(v),
        None => Err(entry.not_found()),
    }
}

} // verus!
