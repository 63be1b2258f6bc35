//! The application's error values.
use vstd::prelude::*;

verus! {

/// Stable error codes that the API reports with a coded error.
#[derive(PartialEq, Eq, Structural, Clone, Copy)]
pub enum ErrorCode {
    Internal,
    NotFound,
    Validation,
    ItemNotFound,
    OrderNotFound,
    AccountNotFound,
    JournalNotFound,
    InvoiceNotFound,
    CheckNotFound,
    LocationNotFound,
    WorkflowNotFound,
    SupplierNotFound,
    CustomerNotFound,
    OrderCannotModify,
}

/// An error of the application.
pub enum AppError {
    /// A coded error with a human-readable message.
    Coded(ErrorCode, String),
    /// The request is not valid.
    Validation(String),
    /// The thing asked for does not exist.
    NotFound(String),
    /// The request is malformed.
    BadRequest(String),
    /// A row of an import could not be stored.
    ImportError(String),
    /// Something failed inside the server.
    Internal(String),
}

/// What an error is, for the contracts: its kind and its message.
pub enum AppErrorView {
    Coded(ErrorCode, Seq<char>),
    Validation(Seq<char>),
    NotFound(Seq<char>),
    BadRequest(Seq<char>),
    ImportError(Seq<char>),
    Internal(Seq<char>),
}

impl View for AppError {
    type V = AppErrorView;

    open spec fn view(&self) -> AppErrorView {
        match self {
            AppError::Coded(c, m) => AppErrorView::Coded(*c, m@),
            AppError::Validation(m) => AppErrorView::Validation(m@),
            AppError::NotFound(m) => AppErrorView::NotFound(m@),
            AppError::BadRequest(m) => AppErrorView::BadRequest(m@),
            AppError::ImportError(m) => AppErrorView::ImportError(m@),
            AppError::Internal(m) => AppErrorView::Internal(m@),
        }
    }
}

impl AppError {
    /// A coded error with `message`.
    pub fn new(code: ErrorCode, message: &str) -> (r: AppError)
        ensures
            r@ == AppErrorView::Coded(code, message@),
    {
        AppError::Coded(code, String::from_str(message))
    }
}

} // verus!
