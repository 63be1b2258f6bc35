//! Verified core of the ERP backend: the text of its SQL queries and the order of
//! their parameters, paging, sort allowlists, money arithmetic over `rust_decimal`,
//! report aggregation, document numbering and status rules.
use vstd::prelude::*;

pub mod error;
pub mod text;
pub mod money;
pub mod query;
pub mod sql_text;
pub mod catalog;
pub mod locations;
pub mod parties;
pub mod purchasing;
pub mod sales;
pub mod inventory;
pub mod finance;
pub mod workflow;
pub mod ledger;
pub mod trend;
pub mod reports;
pub mod sorting;
pub mod numbering;
pub mod updates;
pub mod repo_text;
pub mod paging;
pub mod pipes;
pub mod pipe_repos;
pub mod contract_text;
pub mod contracts;
pub mod listing;
pub mod quality;
pub mod party_repos;
pub mod order_repos;
pub mod audit;
pub mod data_io;
pub mod site_repos;
pub mod order_books;
pub mod checks;
pub mod check_sessions;
pub mod users;
pub mod response;
pub mod stock_journal;
pub mod route_table;
pub mod routes;
pub mod outcomes;
pub mod stock;
pub mod pages;
pub mod auth_store;
pub mod stock_records;
pub mod warehouses;
pub mod party_store;
pub mod purchase_store;
pub mod receiving;
pub mod workflow_store;
pub mod sales_store;
pub mod report_store;

verus! {
} // verus!
