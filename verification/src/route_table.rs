//! Which guards stand before each route of the HTTP API: the route table of the
//! server, grouped as it is assembled, with the authentication, role and rate-limit
//! layers of each group in the order a request meets them.
use vstd::prelude::*;

use crate::text::str_eq;

verus! {

/// An HTTP method the API routes on.
#[derive(Clone, Copy, Debug, PartialEq, Eq, Structural)]
pub enum HttpMethod {
    Get,
    Post,
    Put,
    Delete,
}

impl HttpMethod {
    /// Whether the method changes data (everything but `GET`).
    pub open spec fn is_write(self) -> bool {
        !(self is Get)
    }

    /// The method named by an upper-case HTTP token, if it is one the API uses.
    pub open spec fn named(name: Seq<char>) -> Option<HttpMethod> {
        if name == "GET"@ {
            Some(HttpMethod::Get)
        } else if name == "POST"@ {
            Some(HttpMethod::Post)
        } else if name == "PUT"@ {
            Some(HttpMethod::Put)
        } else if name == "DELETE"@ {
            Some(HttpMethod::Delete)
        } else {
            None
        }
    }

    /// Reads an HTTP method token.
    pub fn parse(name: &str) -> (r: Option<HttpMethod>)
        ensures
            r == HttpMethod::named(name@),
    {
        if str_eq(name, "GET") {
            Some(HttpMethod::Get)
        } else if str_eq(name, "POST") {
            Some(HttpMethod::Post)
        } else if str_eq(name, "PUT") {
            Some(HttpMethod::Put)
        } else if str_eq(name, "DELETE") {
            Some(HttpMethod::Delete)
        } else {
            None
        }
    }
}

/// The roles a role check lets through.
#[derive(Clone, Copy, Debug, PartialEq, Eq, Structural)]
pub struct RoleSet {
    pub admin: bool,
    pub warehouse: bool,
    pub sales: bool,
}

impl RoleSet {
    /// The role names the check is configured with, in the order the server lists them.
    pub open spec fn spec_names(self) -> Seq<&'static str> {
        (if self.admin { seq!["admin"] } else { Seq::empty() })
            + (if self.warehouse { seq!["warehouse"] } else { Seq::empty() })
            + (if self.sales { seq!["sales"] } else { Seq::empty() })
    }

    /// The role names handed to the role check.
    pub fn names(&self) -> (r: Vec<&'static str>)
        ensures
            r@ == self.spec_names(),
    {
        let mut r: Vec<&'static str> = Vec::new();
        if self.admin {
            r.push("admin");
        }
        if self.warehouse {
            r.push("warehouse");
        }
        if self.sales {
            r.push("sales");
        }
        assert(r@ =~= self.spec_names());
        r
    }
}

/// The rate limiter a route is counted against.
#[derive(Clone, Copy, Debug, PartialEq, Eq, Structural)]
pub enum RateLimit {
    /// Sign-in and token refresh.
    Login,
    /// The signed-in user's own account routes.
    PasswordChange,
    /// Bulk imports.
    Import,
}

/// One layer a request passes before it reaches its handler.
#[derive(Clone, Copy, Debug, PartialEq, Eq, Structural)]
pub enum Guard {
    /// A valid access token is required.
    Authenticate,
    /// The caller's role must be one of the set.
    RequireRoles(RoleSet),
    /// The request is counted against a rate limiter.
    Limit(RateLimit),
}

/// The route groups of the server, in the order they are merged into the application.
#[derive(Clone, Copy, Debug, PartialEq, Eq, Structural)]
pub enum RouteGroup {
    /// Routes for health probes, open to everyone.
    Public,
    /// Routes for sign-in and token refresh.
    PublicAuth,
    /// Routes for the signed-in user's own account.
    Authenticated,
    /// Routes for roles, permissions, departments and user-role binding.
    Rbac,
    /// Routes for workflow definitions and tasks.
    Workflow,
    /// Routes for human resources.
    Hr,
    /// Routes for accounts, journal entries, invoices and payments.
    Finance,
    /// Routes for requisitions, goods receipts and supplier quotes.
    Procurement,
    /// Routes for shipments, sales quotes and customer credit.
    SalesCrm,
    /// Routes for reservations, transfers and cycle counts.
    InventoryAtp,
    /// Routes for bills of materials, work orders, inspections and non-conformance reports.
    Manufacturing,
    /// Routes for projects, work breakdown and budget transactions.
    Project,
    /// Routes for fixed assets.
    Assets,
    /// Routes for the signed-in user's notifications.
    Notification,
    /// Routes for portal account creation.
    PortalAdmin,
    /// Routes for analytics.
    Bi,
    /// Routes for the partner portal, which carries its own token.
    PortalApi,
    /// Routes for the user list.
    AdminRead,
    /// Routes for stock, movements, items, locations and checks (read).
    InventoryRead,
    /// Routes for import templates.
    DataIoTemplates,
    /// Routes for exports.
    DataIoExport,
    /// Routes for import and export logs.
    DataIoLogs,
    /// Routes for suppliers (read).
    SupplierRead,
    /// Routes for customers (read).
    CustomerRead,
    /// Routes for purchase orders (read).
    PurchaseRead,
    /// Routes for sales orders (read).
    SalesRead,
    /// Routes for contracts (read).
    ContractRead,
    /// Routes for reports.
    Reports,
    /// Routes for bulk imports.
    Import,
    /// Routes for user administration.
    UserAdmin,
    /// Routes for inbound, outbound, locations, items and checks (write).
    WarehouseWrite,
    /// Routes for sales orders (write).
    SalesWrite,
    /// Routes for purchase orders (write).
    PurchasesWrite,
    /// Routes for suppliers and customers (write).
    PartiesWrite,
    /// Routes for contracts (write).
    ContractWrite,
}

/// The guards of a group, outermost first: the order in which a request meets them.
pub open spec fn group_guards(g: RouteGroup) -> Seq<Guard> {
    match g {
        RouteGroup::Public => Seq::empty(),
        RouteGroup::PublicAuth => seq![Guard::Limit(RateLimit::Login)],
        RouteGroup::Authenticated => seq![Guard::Authenticate, Guard::Limit(RateLimit::PasswordChange)],
        RouteGroup::Rbac => seq![Guard::Authenticate, Guard::RequireRoles(RoleSet { admin: true, warehouse: false, sales: false })],
        RouteGroup::Workflow => seq![Guard::Authenticate],
        RouteGroup::Hr => seq![Guard::Authenticate, Guard::RequireRoles(RoleSet { admin: true, warehouse: false, sales: false })],
        RouteGroup::Finance => seq![Guard::Authenticate, Guard::RequireRoles(RoleSet { admin: true, warehouse: false, sales: false })],
        RouteGroup::Procurement => seq![Guard::Authenticate, Guard::RequireRoles(RoleSet { admin: true, warehouse: false, sales: false })],
        RouteGroup::SalesCrm => seq![Guard::Authenticate, Guard::RequireRoles(RoleSet { admin: true, warehouse: false, sales: false })],
        RouteGroup::InventoryAtp => seq![Guard::Authenticate, Guard::RequireRoles(RoleSet { admin: true, warehouse: false, sales: false })],
        RouteGroup::Manufacturing => seq![Guard::Authenticate, Guard::RequireRoles(RoleSet { admin: true, warehouse: false, sales: false })],
        RouteGroup::Project => seq![Guard::Authenticate, Guard::RequireRoles(RoleSet { admin: true, warehouse: false, sales: false })],
        RouteGroup::Assets => seq![Guard::Authenticate, Guard::RequireRoles(RoleSet { admin: true, warehouse: false, sales: false })],
        RouteGroup::Notification => seq![Guard::Authenticate],
        RouteGroup::PortalAdmin => seq![Guard::Authenticate, Guard::RequireRoles(RoleSet { admin: true, warehouse: false, sales: false })],
        RouteGroup::Bi => seq![Guard::Authenticate, Guard::RequireRoles(RoleSet { admin: true, warehouse: false, sales: false })],
        RouteGroup::PortalApi => Seq::empty(),
        RouteGroup::AdminRead => seq![Guard::RequireRoles(RoleSet { admin: true, warehouse: false, sales: false }), Guard::Authenticate],
        RouteGroup::InventoryRead => seq![Guard::Authenticate],
        RouteGroup::DataIoTemplates => seq![Guard::Authenticate],
        RouteGroup::DataIoExport => seq![Guard::Authenticate, Guard::RequireRoles(RoleSet { admin: true, warehouse: true, sales: true })],
        RouteGroup::DataIoLogs => seq![Guard::Authenticate, Guard::RequireRoles(RoleSet { admin: true, warehouse: false, sales: false })],
        RouteGroup::SupplierRead => seq![Guard::Authenticate],
        RouteGroup::CustomerRead => seq![Guard::Authenticate],
        RouteGroup::PurchaseRead => seq![Guard::Authenticate],
        RouteGroup::SalesRead => seq![Guard::Authenticate],
        RouteGroup::ContractRead => seq![Guard::Authenticate],
        RouteGroup::Reports => seq![Guard::Authenticate],
        RouteGroup::Import => seq![Guard::Authenticate, Guard::RequireRoles(RoleSet { admin: true, warehouse: false, sales: false }), Guard::Limit(RateLimit::Import)],
        RouteGroup::UserAdmin => seq![Guard::Authenticate, Guard::RequireRoles(RoleSet { admin: true, warehouse: false, sales: false })],
        RouteGroup::WarehouseWrite => seq![Guard::Authenticate, Guard::RequireRoles(RoleSet { admin: true, warehouse: true, sales: false })],
        RouteGroup::SalesWrite => seq![Guard::Authenticate, Guard::RequireRoles(RoleSet { admin: true, warehouse: false, sales: true })],
        RouteGroup::PurchasesWrite => seq![Guard::Authenticate, Guard::RequireRoles(RoleSet { admin: true, warehouse: true, sales: true })],
        RouteGroup::PartiesWrite => seq![Guard::Authenticate, Guard::RequireRoles(RoleSet { admin: true, warehouse: true, sales: true })],
        RouteGroup::ContractWrite => seq![Guard::Authenticate, Guard::RequireRoles(RoleSet { admin: true, warehouse: true, sales: true })],
    }
}

/// The guards of a group, outermost first.
pub fn guards_of(g: RouteGroup) -> (r: Vec<Guard>)
    ensures
        r@ == group_guards(g),
{
    let r: Vec<Guard> = match g {
        RouteGroup::Public => vec![],
        RouteGroup::PublicAuth => vec![Guard::Limit(RateLimit::Login)],
        RouteGroup::Authenticated => vec![Guard::Authenticate, Guard::Limit(RateLimit::PasswordChange)],
        RouteGroup::Rbac => vec![Guard::Authenticate, Guard::RequireRoles(RoleSet { admin: true, warehouse: false, sales: false })],
        RouteGroup::Workflow => vec![Guard::Authenticate],
        RouteGroup::Hr => vec![Guard::Authenticate, Guard::RequireRoles(RoleSet { admin: true, warehouse: false, sales: false })],
        RouteGroup::Finance => vec![Guard::Authenticate, Guard::RequireRoles(RoleSet { admin: true, warehouse: false, sales: false })],
        RouteGroup::Procurement => vec![Guard::Authenticate, Guard::RequireRoles(RoleSet { admin: true, warehouse: false, sales: false })],
        RouteGroup::SalesCrm => vec![Guard::Authenticate, Guard::RequireRoles(RoleSet { admin: true, warehouse: false, sales: false })],
        RouteGroup::InventoryAtp => vec![Guard::Authenticate, Guard::RequireRoles(RoleSet { admin: true, warehouse: false, sales: false })],
        RouteGroup::Manufacturing => vec![Guard::Authenticate, Guard::RequireRoles(RoleSet { admin: true, warehouse: false, sales: false })],
        RouteGroup::Project => vec![Guard::Authenticate, Guard::RequireRoles(RoleSet { admin: true, warehouse: false, sales: false })],
        RouteGroup::Assets => vec![Guard::Authenticate, Guard::RequireRoles(RoleSet { admin: true, warehouse: false, sales: false })],
        RouteGroup::Notification => vec![Guard::Authenticate],
        RouteGroup::PortalAdmin => vec![Guard::Authenticate, Guard::RequireRoles(RoleSet { admin: true, warehouse: false, sales: false })],
        RouteGroup::Bi => vec![Guard::Authenticate, Guard::RequireRoles(RoleSet { admin: true, warehouse: false, sales: false })],
        RouteGroup::PortalApi => vec![],
        RouteGroup::AdminRead => vec![Guard::RequireRoles(RoleSet { admin: true, warehouse: false, sales: false }), Guard::Authenticate],
        RouteGroup::InventoryRead => vec![Guard::Authenticate],
        RouteGroup::DataIoTemplates => vec![Guard::Authenticate],
        RouteGroup::DataIoExport => vec![Guard::Authenticate, Guard::RequireRoles(RoleSet { admin: true, warehouse: true, sales: true })],
        RouteGroup::DataIoLogs => vec![Guard::Authenticate, Guard::RequireRoles(RoleSet { admin: true, warehouse: false, sales: false })],
        RouteGroup::SupplierRead => vec![Guard::Authenticate],
        RouteGroup::CustomerRead => vec![Guard::Authenticate],
        RouteGroup::PurchaseRead => vec![Guard::Authenticate],
        RouteGroup::SalesRead => vec![Guard::Authenticate],
        RouteGroup::ContractRead => vec![Guard::Authenticate],
        RouteGroup::Reports => vec![Guard::Authenticate],
        RouteGroup::Import => vec![Guard::Authenticate, Guard::RequireRoles(RoleSet { admin: true, warehouse: false, sales: false }), Guard::Limit(RateLimit::Import)],
        RouteGroup::UserAdmin => vec![Guard::Authenticate, Guard::RequireRoles(RoleSet { admin: true, warehouse: false, sales: false })],
        RouteGroup::WarehouseWrite => vec![Guard::Authenticate, Guard::RequireRoles(RoleSet { admin: true, warehouse: true, sales: false })],
        RouteGroup::SalesWrite => vec![Guard::Authenticate, Guard::RequireRoles(RoleSet { admin: true, warehouse: false, sales: true })],
        RouteGroup::PurchasesWrite => vec![Guard::Authenticate, Guard::RequireRoles(RoleSet { admin: true, warehouse: true, sales: true })],
        RouteGroup::PartiesWrite => vec![Guard::Authenticate, Guard::RequireRoles(RoleSet { admin: true, warehouse: true, sales: true })],
        RouteGroup::ContractWrite => vec![Guard::Authenticate, Guard::RequireRoles(RoleSet { admin: true, warehouse: true, sales: true })],
    };
    assert(r@ =~= group_guards(g));
    r
}

/// The routes of a group: each a method and a path template.
pub open spec fn group_routes(g: RouteGroup) -> Seq<(HttpMethod, &'static str)> {
    match g {
        RouteGroup::Public => seq![
            (HttpMethod::Get, "/api/v1/health"),
            (HttpMethod::Get, "/api/v1/health/ready"),
        ],
        RouteGroup::PublicAuth => seq![
            (HttpMethod::Post, "/api/v1/auth/login"),
            (HttpMethod::Post, "/api/v1/auth/refresh"),
        ],
        RouteGroup::Authenticated => seq![
            (HttpMethod::Post, "/api/v1/auth/logout"),
            (HttpMethod::Get, "/api/v1/auth/me"),
            (HttpMethod::Put, "/api/v1/auth/me"),
            (HttpMethod::Post, "/api/v1/users/{id}/change-password"),
        ],
        RouteGroup::Rbac => seq![
            (HttpMethod::Get, "/api/v1/auth/permissions"),
            (HttpMethod::Get, "/api/v1/auth/roles"),
            (HttpMethod::Post, "/api/v1/auth/roles"),
            (HttpMethod::Put, "/api/v1/auth/roles/{id}"),
            (HttpMethod::Delete, "/api/v1/auth/roles/{id}"),
            (HttpMethod::Get, "/api/v1/auth/roles/{id}/permissions"),
            (HttpMethod::Put, "/api/v1/auth/roles/{id}/permissions"),
            (HttpMethod::Get, "/api/v1/auth/departments"),
            (HttpMethod::Post, "/api/v1/auth/departments"),
            (HttpMethod::Put, "/api/v1/auth/departments/{id}"),
            (HttpMethod::Delete, "/api/v1/auth/departments/{id}"),
            (HttpMethod::Get, "/api/v1/auth/tenants/{id}"),
            (HttpMethod::Put, "/api/v1/auth/users/{user_id}/roles"),
            (HttpMethod::Get, "/api/v1/auth/users/{user_id}/roles"),
            (HttpMethod::Get, "/api/v1/auth/users/{user_id}/permissions"),
        ],
        RouteGroup::Workflow => seq![
            (HttpMethod::Get, "/api/v1/workflows/definitions"),
            (HttpMethod::Post, "/api/v1/workflows/definitions"),
            (HttpMethod::Get, "/api/v1/workflows/definitions/{id}"),
            (HttpMethod::Put, "/api/v1/workflows/definitions/{id}"),
            (HttpMethod::Delete, "/api/v1/workflows/definitions/{id}"),
            (HttpMethod::Post, "/api/v1/workflows/instances"),
            (HttpMethod::Get, "/api/v1/workflows/my-tasks"),
            (HttpMethod::Get, "/api/v1/workflows/tasks/{node_id}"),
            (HttpMethod::Post, "/api/v1/workflows/tasks/{node_id}/approve"),
            (HttpMethod::Post, "/api/v1/workflows/tasks/{node_id}/reject"),
            (HttpMethod::Post, "/api/v1/workflows/delegations"),
        ],
        RouteGroup::Hr => seq![
            (HttpMethod::Get, "/api/v1/hr/employees"),
            (HttpMethod::Post, "/api/v1/hr/employees"),
            (HttpMethod::Get, "/api/v1/hr/employees/{id}"),
            (HttpMethod::Put, "/api/v1/hr/employees/{id}"),
            (HttpMethod::Delete, "/api/v1/hr/employees/{id}"),
            (HttpMethod::Post, "/api/v1/hr/employees/{id}/terminate"),
            (HttpMethod::Get, "/api/v1/hr/employees/{id}/contracts"),
            (HttpMethod::Post, "/api/v1/hr/contracts"),
            (HttpMethod::Get, "/api/v1/hr/positions"),
            (HttpMethod::Post, "/api/v1/hr/positions"),
            (HttpMethod::Get, "/api/v1/hr/attendance"),
            (HttpMethod::Post, "/api/v1/hr/attendance/check-in"),
            (HttpMethod::Get, "/api/v1/hr/attendance/rules"),
            (HttpMethod::Get, "/api/v1/hr/salaries"),
            (HttpMethod::Post, "/api/v1/hr/salaries"),
            (HttpMethod::Get, "/api/v1/hr/salaries/{id}"),
        ],
        RouteGroup::Finance => seq![
            (HttpMethod::Get, "/api/v1/chart-of-accounts"),
            (HttpMethod::Post, "/api/v1/chart-of-accounts"),
            (HttpMethod::Put, "/api/v1/chart-of-accounts/{id}"),
            (HttpMethod::Get, "/api/v1/journal-entries"),
            (HttpMethod::Post, "/api/v1/journal-entries"),
            (HttpMethod::Get, "/api/v1/journal-entries/{id}"),
            (HttpMethod::Get, "/api/v1/finance/trial-balance"),
            (HttpMethod::Get, "/api/v1/invoices"),
            (HttpMethod::Post, "/api/v1/invoices"),
            (HttpMethod::Get, "/api/v1/invoices/{id}"),
            (HttpMethod::Post, "/api/v1/invoices/{id}/confirm"),
            (HttpMethod::Post, "/api/v1/invoices/{id}/void"),
            (HttpMethod::Get, "/api/v1/payments"),
            (HttpMethod::Post, "/api/v1/payments"),
        ],
        RouteGroup::Procurement => seq![
            (HttpMethod::Get, "/api/v1/purchase-requisitions"),
            (HttpMethod::Post, "/api/v1/purchase-requisitions"),
            (HttpMethod::Get, "/api/v1/purchase-requisitions/{id}"),
            (HttpMethod::Put, "/api/v1/purchase-requisitions/{id}"),
            (HttpMethod::Get, "/api/v1/po-receipts"),
            (HttpMethod::Post, "/api/v1/po-receipts"),
            (HttpMethod::Get, "/api/v1/po-receipts/{id}"),
            (HttpMethod::Get, "/api/v1/supplier-quotes"),
            (HttpMethod::Post, "/api/v1/supplier-quotes"),
            (HttpMethod::Put, "/api/v1/supplier-quotes/{id}/status"),
            (HttpMethod::Get, "/api/v1/suppliers/{supplier_id}/scorecard"),
        ],
        RouteGroup::SalesCrm => seq![
            (HttpMethod::Get, "/api/v1/shipments"),
            (HttpMethod::Post, "/api/v1/shipments"),
            (HttpMethod::Put, "/api/v1/shipments/{id}/status"),
            (HttpMethod::Get, "/api/v1/sales-quotes"),
            (HttpMethod::Post, "/api/v1/sales-quotes"),
            (HttpMethod::Get, "/api/v1/sales-quotes/{id}"),
            (HttpMethod::Put, "/api/v1/sales-quotes/{id}/status"),
            (HttpMethod::Post, "/api/v1/sales-quotes/{id}/convert"),
            (HttpMethod::Get, "/api/v1/customers/{customer_id}/credit"),
        ],
        RouteGroup::InventoryAtp => seq![
            (HttpMethod::Get, "/api/v1/inventory/atp/overview"),
            (HttpMethod::Post, "/api/v1/inventory/reservations"),
            (HttpMethod::Post, "/api/v1/inventory/reservations/{id}/release"),
            (HttpMethod::Get, "/api/v1/inventory/transfers"),
            (HttpMethod::Post, "/api/v1/inventory/transfers"),
            (HttpMethod::Get, "/api/v1/inventory/count-templates"),
            (HttpMethod::Post, "/api/v1/inventory/count-templates"),
            (HttpMethod::Post, "/api/v1/inventory/count-templates/{template_id}/start"),
            (HttpMethod::Get, "/api/v1/inventory/count-sessions"),
            (HttpMethod::Post, "/api/v1/inventory/count-sessions"),
        ],
        RouteGroup::Manufacturing => seq![
            (HttpMethod::Get, "/api/v1/manufacturing/boms"),
            (HttpMethod::Post, "/api/v1/manufacturing/boms"),
            (HttpMethod::Get, "/api/v1/manufacturing/boms/{id}"),
            (HttpMethod::Get, "/api/v1/manufacturing/work-orders"),
            (HttpMethod::Post, "/api/v1/manufacturing/work-orders"),
            (HttpMethod::Get, "/api/v1/manufacturing/work-orders/{id}"),
            (HttpMethod::Post, "/api/v1/manufacturing/work-orders/{id}/start"),
            (HttpMethod::Post, "/api/v1/manufacturing/work-orders/{id}/complete-step"),
            (HttpMethod::Get, "/api/v1/manufacturing/inspections"),
            (HttpMethod::Post, "/api/v1/manufacturing/inspections"),
            (HttpMethod::Get, "/api/v1/manufacturing/ncrs"),
            (HttpMethod::Post, "/api/v1/manufacturing/ncrs"),
            (HttpMethod::Post, "/api/v1/manufacturing/ncrs/{id}/resolve"),
        ],
        RouteGroup::Project => seq![
            (HttpMethod::Get, "/api/v1/projects"),
            (HttpMethod::Post, "/api/v1/projects"),
            (HttpMethod::Get, "/api/v1/projects/{id}"),
            (HttpMethod::Put, "/api/v1/projects/{id}"),
            (HttpMethod::Get, "/api/v1/projects/{id}/wbs"),
            (HttpMethod::Post, "/api/v1/projects/{id}/wbs"),
            (HttpMethod::Put, "/api/v1/projects/{project_id}/wbs/{id}"),
            (HttpMethod::Get, "/api/v1/projects/{id}/financials"),
            (HttpMethod::Get, "/api/v1/projects/{id}/transactions"),
            (HttpMethod::Post, "/api/v1/projects/{id}/transactions"),
        ],
        RouteGroup::Assets => seq![
            (HttpMethod::Get, "/api/v1/assets"),
            (HttpMethod::Post, "/api/v1/assets"),
            (HttpMethod::Get, "/api/v1/assets/{id}"),
            (HttpMethod::Put, "/api/v1/assets/{id}"),
            (HttpMethod::Post, "/api/v1/assets/{id}/depreciate"),
            (HttpMethod::Post, "/api/v1/assets/{id}/dispose"),
        ],
        RouteGroup::Notification => seq![
            (HttpMethod::Get, "/api/v1/notifications"),
            (HttpMethod::Post, "/api/v1/notifications"),
            (HttpMethod::Get, "/api/v1/notifications/unread-count"),
            (HttpMethod::Post, "/api/v1/notifications/{id}/read"),
            (HttpMethod::Get, "/api/v1/notifications/preferences"),
            (HttpMethod::Put, "/api/v1/notifications/preferences"),
            (HttpMethod::Post, "/api/v1/notifications/templates"),
        ],
        RouteGroup::PortalAdmin => seq![
            (HttpMethod::Post, "/api/v1/portal/accounts"),
        ],
        RouteGroup::Bi => seq![
            (HttpMethod::Get, "/api/v1/bi/sales-trend"),
            (HttpMethod::Get, "/api/v1/bi/inventory-value"),
            (HttpMethod::Get, "/api/v1/bi/finance-summary"),
            (HttpMethod::Get, "/api/v1/bi/supplier-performance"),
        ],
        RouteGroup::PortalApi => seq![
            (HttpMethod::Post, "/api/v1/portal-api/login"),
            (HttpMethod::Get, "/api/v1/portal-api/purchases"),
            (HttpMethod::Post, "/api/v1/portal-api/purchases/{id}/accept"),
            (HttpMethod::Get, "/api/v1/portal-api/sales"),
            (HttpMethod::Post, "/api/v1/portal-api/sales/{id}/acknowledge"),
            (HttpMethod::Get, "/api/v1/portal-api/events"),
        ],
        RouteGroup::AdminRead => seq![
            (HttpMethod::Get, "/api/v1/users"),
        ],
        RouteGroup::InventoryRead => seq![
            (HttpMethod::Get, "/api/v1/inbound-records"),
            (HttpMethod::Get, "/api/v1/inbound-records/{id}"),
            (HttpMethod::Get, "/api/v1/outbound-records"),
            (HttpMethod::Get, "/api/v1/outbound-records/{id}"),
            (HttpMethod::Get, "/api/v1/inventory"),
            (HttpMethod::Get, "/api/v1/inventory/logs"),
            (HttpMethod::Get, "/api/v1/items/search"),
            (HttpMethod::Get, "/api/v1/items"),
            (HttpMethod::Get, "/api/v1/items/{id}"),
            (HttpMethod::Get, "/api/v1/locations"),
            (HttpMethod::Get, "/api/v1/locations/{id}"),
            (HttpMethod::Get, "/api/v1/inventory/checks"),
            (HttpMethod::Get, "/api/v1/inventory/checks/{id}"),
            (HttpMethod::Get, "/api/v1/trace/items/{item_id}"),
            (HttpMethod::Get, "/api/v1/trace/order/{order_type}/{order_id}"),
            (HttpMethod::Get, "/api/v1/inventory/statistics"),
            (HttpMethod::Get, "/api/v1/inbound-records/{id}/items"),
            (HttpMethod::Get, "/api/v1/outbound-records/{id}/items"),
            (HttpMethod::Get, "/api/v1/atp"),
            (HttpMethod::Get, "/api/v1/inventory/inbound/search"),
            (HttpMethod::Get, "/api/v1/inventory/outbound/search"),
        ],
        RouteGroup::DataIoTemplates => seq![
            (HttpMethod::Get, "/api/v1/data-io/templates/{entity_type}"),
        ],
        RouteGroup::DataIoExport => seq![
            (HttpMethod::Get, "/api/v1/data-io/export/{entity_type}"),
        ],
        RouteGroup::DataIoLogs => seq![
            (HttpMethod::Get, "/api/v1/data-io/operation-logs"),
        ],
        RouteGroup::SupplierRead => seq![
            (HttpMethod::Get, "/api/v1/suppliers/search"),
            (HttpMethod::Get, "/api/v1/suppliers/active"),
            (HttpMethod::Get, "/api/v1/suppliers"),
            (HttpMethod::Get, "/api/v1/suppliers/{id}"),
        ],
        RouteGroup::CustomerRead => seq![
            (HttpMethod::Get, "/api/v1/customers/search"),
            (HttpMethod::Get, "/api/v1/customers/active"),
            (HttpMethod::Get, "/api/v1/customers"),
            (HttpMethod::Get, "/api/v1/customers/{id}"),
        ],
        RouteGroup::PurchaseRead => seq![
            (HttpMethod::Get, "/api/v1/purchase-orders"),
            (HttpMethod::Get, "/api/v1/purchase-orders/{id}"),
            (HttpMethod::Get, "/api/v1/purchase-orders/search"),
        ],
        RouteGroup::SalesRead => seq![
            (HttpMethod::Get, "/api/v1/sales-orders"),
            (HttpMethod::Get, "/api/v1/sales-orders/{id}"),
            (HttpMethod::Get, "/api/v1/sales-orders/search"),
        ],
        RouteGroup::ContractRead => seq![
            (HttpMethod::Get, "/api/v1/contracts"),
            (HttpMethod::Get, "/api/v1/contracts/{id}"),
            (HttpMethod::Get, "/api/v1/contracts/{contract_id}/payments"),
        ],
        RouteGroup::Reports => seq![
            (HttpMethod::Get, "/api/v1/reports/inventory-summary"),
            (HttpMethod::Get, "/api/v1/reports/order-report"),
            (HttpMethod::Get, "/api/v1/reports/quality-report"),
            (HttpMethod::Get, "/api/v1/reports/dashboard"),
        ],
        RouteGroup::Import => seq![
            (HttpMethod::Post, "/api/v1/data-io/import/{entity_type}"),
        ],
        RouteGroup::UserAdmin => seq![
            (HttpMethod::Post, "/api/v1/users"),
            (HttpMethod::Put, "/api/v1/users/{id}"),
            (HttpMethod::Delete, "/api/v1/users/{id}"),
            (HttpMethod::Put, "/api/v1/users/{id}/role"),
        ],
        RouteGroup::WarehouseWrite => seq![
            (HttpMethod::Post, "/api/v1/inbound-records"),
            (HttpMethod::Put, "/api/v1/inbound-records/{id}"),
            (HttpMethod::Delete, "/api/v1/inbound-records/{id}"),
            (HttpMethod::Post, "/api/v1/inbound-records/{id}/approve"),
            (HttpMethod::Post, "/api/v1/inbound-records/{id}/reject"),
            (HttpMethod::Post, "/api/v1/outbound-records"),
            (HttpMethod::Put, "/api/v1/outbound-records/{id}"),
            (HttpMethod::Delete, "/api/v1/outbound-records/{id}"),
            (HttpMethod::Post, "/api/v1/outbound-records/{id}/approve"),
            (HttpMethod::Post, "/api/v1/outbound-records/{id}/reject"),
            (HttpMethod::Post, "/api/v1/locations"),
            (HttpMethod::Put, "/api/v1/locations/{id}"),
            (HttpMethod::Delete, "/api/v1/locations/{id}"),
            (HttpMethod::Post, "/api/v1/items"),
            (HttpMethod::Put, "/api/v1/items/{id}"),
            (HttpMethod::Delete, "/api/v1/items/{id}"),
            (HttpMethod::Post, "/api/v1/inventory/checks"),
            (HttpMethod::Post, "/api/v1/inventory/checks/{id}/complete"),
            (HttpMethod::Put, "/api/v1/inventory/checks/{check_id}/items/{item_id}"),
            (HttpMethod::Post, "/api/v1/inbound-records/batch"),
        ],
        RouteGroup::SalesWrite => seq![
            (HttpMethod::Post, "/api/v1/sales-orders"),
            (HttpMethod::Put, "/api/v1/sales-orders/{id}"),
            (HttpMethod::Delete, "/api/v1/sales-orders/{id}"),
            (HttpMethod::Post, "/api/v1/sales-orders/{id}/transition"),
            (HttpMethod::Put, "/api/v1/sales-orders/{order_id}/items/{item_id}"),
            (HttpMethod::Delete, "/api/v1/sales-orders/{order_id}/items/{item_id}"),
            (HttpMethod::Post, "/api/v1/sales-orders/{id}/approve"),
            (HttpMethod::Post, "/api/v1/sales-orders/{id}/reject"),
            (HttpMethod::Post, "/api/v1/sales-orders/{id}/link-outbound"),
        ],
        RouteGroup::PurchasesWrite => seq![
            (HttpMethod::Post, "/api/v1/purchase-orders"),
            (HttpMethod::Put, "/api/v1/purchase-orders/{id}"),
            (HttpMethod::Delete, "/api/v1/purchase-orders/{id}"),
            (HttpMethod::Post, "/api/v1/purchase-orders/{id}/transition"),
            (HttpMethod::Put, "/api/v1/purchase-orders/{order_id}/items/{item_id}"),
            (HttpMethod::Delete, "/api/v1/purchase-orders/{order_id}/items/{item_id}"),
            (HttpMethod::Post, "/api/v1/purchase-orders/{id}/approve"),
            (HttpMethod::Post, "/api/v1/purchase-orders/{id}/reject"),
            (HttpMethod::Post, "/api/v1/purchase-orders/{id}/link-inbound"),
        ],
        RouteGroup::PartiesWrite => seq![
            (HttpMethod::Post, "/api/v1/suppliers"),
            (HttpMethod::Put, "/api/v1/suppliers/{id}"),
            (HttpMethod::Delete, "/api/v1/suppliers/{id}"),
            (HttpMethod::Post, "/api/v1/customers"),
            (HttpMethod::Put, "/api/v1/customers/{id}"),
            (HttpMethod::Delete, "/api/v1/customers/{id}"),
        ],
        RouteGroup::ContractWrite => seq![
            (HttpMethod::Post, "/api/v1/contracts"),
            (HttpMethod::Put, "/api/v1/contracts/{id}"),
            (HttpMethod::Delete, "/api/v1/contracts/{id}"),
            (HttpMethod::Post, "/api/v1/contracts/{id}/status"),
            (HttpMethod::Post, "/api/v1/contracts/{contract_id}/items"),
            (HttpMethod::Put, "/api/v1/contracts/{contract_id}/items/{item_id}"),
            (HttpMethod::Delete, "/api/v1/contracts/{contract_id}/items/{item_id}"),
            (HttpMethod::Post, "/api/v1/contracts/{contract_id}/payments"),
            (HttpMethod::Put, "/api/v1/contracts/{contract_id}/payments/{payment_id}"),
            (HttpMethod::Delete, "/api/v1/contracts/{contract_id}/payments/{payment_id}"),
        ],
    }
}

/// The routes of a group.
pub fn routes_of(g: RouteGroup) -> (r: Vec<(HttpMethod, &'static str)>)
    ensures
        r@ == group_routes(g),
{
    let r: Vec<(HttpMethod, &'static str)> = match g {
        RouteGroup::Public => vec![
            (HttpMethod::Get, "/api/v1/health"),
            (HttpMethod::Get, "/api/v1/health/ready"),
        ],
        RouteGroup::PublicAuth => vec![
            (HttpMethod::Post, "/api/v1/auth/login"),
            (HttpMethod::Post, "/api/v1/auth/refresh"),
        ],
        RouteGroup::Authenticated => vec![
            (HttpMethod::Post, "/api/v1/auth/logout"),
            (HttpMethod::Get, "/api/v1/auth/me"),
            (HttpMethod::Put, "/api/v1/auth/me"),
            (HttpMethod::Post, "/api/v1/users/{id}/change-password"),
        ],
        RouteGroup::Rbac => vec![
            (HttpMethod::Get, "/api/v1/auth/permissions"),
            (HttpMethod::Get, "/api/v1/auth/roles"),
            (HttpMethod::Post, "/api/v1/auth/roles"),
            (HttpMethod::Put, "/api/v1/auth/roles/{id}"),
            (HttpMethod::Delete, "/api/v1/auth/roles/{id}"),
            (HttpMethod::Get, "/api/v1/auth/roles/{id}/permissions"),
            (HttpMethod::Put, "/api/v1/auth/roles/{id}/permissions"),
            (HttpMethod::Get, "/api/v1/auth/departments"),
            (HttpMethod::Post, "/api/v1/auth/departments"),
            (HttpMethod::Put, "/api/v1/auth/departments/{id}"),
            (HttpMethod::Delete, "/api/v1/auth/departments/{id}"),
            (HttpMethod::Get, "/api/v1/auth/tenants/{id}"),
            (HttpMethod::Put, "/api/v1/auth/users/{user_id}/roles"),
            (HttpMethod::Get, "/api/v1/auth/users/{user_id}/roles"),
            (HttpMethod::Get, "/api/v1/auth/users/{user_id}/permissions"),
        ],
        RouteGroup::Workflow => vec![
            (HttpMethod::Get, "/api/v1/workflows/definitions"),
            (HttpMethod::Post, "/api/v1/workflows/definitions"),
            (HttpMethod::Get, "/api/v1/workflows/definitions/{id}"),
            (HttpMethod::Put, "/api/v1/workflows/definitions/{id}"),
            (HttpMethod::Delete, "/api/v1/workflows/definitions/{id}"),
            (HttpMethod::Post, "/api/v1/workflows/instances"),
            (HttpMethod::Get, "/api/v1/workflows/my-tasks"),
            (HttpMethod::Get, "/api/v1/workflows/tasks/{node_id}"),
            (HttpMethod::Post, "/api/v1/workflows/tasks/{node_id}/approve"),
            (HttpMethod::Post, "/api/v1/workflows/tasks/{node_id}/reject"),
            (HttpMethod::Post, "/api/v1/workflows/delegations"),
        ],
        RouteGroup::Hr => vec![
            (HttpMethod::Get, "/api/v1/hr/employees"),
            (HttpMethod::Post, "/api/v1/hr/employees"),
            (HttpMethod::Get, "/api/v1/hr/employees/{id}"),
            (HttpMethod::Put, "/api/v1/hr/employees/{id}"),
            (HttpMethod::Delete, "/api/v1/hr/employees/{id}"),
            (HttpMethod::Post, "/api/v1/hr/employees/{id}/terminate"),
            (HttpMethod::Get, "/api/v1/hr/employees/{id}/contracts"),
            (HttpMethod::Post, "/api/v1/hr/contracts"),
            (HttpMethod::Get, "/api/v1/hr/positions"),
            (HttpMethod::Post, "/api/v1/hr/positions"),
            (HttpMethod::Get, "/api/v1/hr/attendance"),
            (HttpMethod::Post, "/api/v1/hr/attendance/check-in"),
            (HttpMethod::Get, "/api/v1/hr/attendance/rules"),
            (HttpMethod::Get, "/api/v1/hr/salaries"),
            (HttpMethod::Post, "/api/v1/hr/salaries"),
            (HttpMethod::Get, "/api/v1/hr/salaries/{id}"),
        ],
        RouteGroup::Finance => vec![
            (HttpMethod::Get, "/api/v1/chart-of-accounts"),
            (HttpMethod::Post, "/api/v1/chart-of-accounts"),
            (HttpMethod::Put, "/api/v1/chart-of-accounts/{id}"),
            (HttpMethod::Get, "/api/v1/journal-entries"),
            (HttpMethod::Post, "/api/v1/journal-entries"),
            (HttpMethod::Get, "/api/v1/journal-entries/{id}"),
            (HttpMethod::Get, "/api/v1/finance/trial-balance"),
            (HttpMethod::Get, "/api/v1/invoices"),
            (HttpMethod::Post, "/api/v1/invoices"),
            (HttpMethod::Get, "/api/v1/invoices/{id}"),
            (HttpMethod::Post, "/api/v1/invoices/{id}/confirm"),
            (HttpMethod::Post, "/api/v1/invoices/{id}/void"),
            (HttpMethod::Get, "/api/v1/payments"),
            (HttpMethod::Post, "/api/v1/payments"),
        ],
        RouteGroup::Procurement => vec![
            (HttpMethod::Get, "/api/v1/purchase-requisitions"),
            (HttpMethod::Post, "/api/v1/purchase-requisitions"),
            (HttpMethod::Get, "/api/v1/purchase-requisitions/{id}"),
            (HttpMethod::Put, "/api/v1/purchase-requisitions/{id}"),
            (HttpMethod::Get, "/api/v1/po-receipts"),
            (HttpMethod::Post, "/api/v1/po-receipts"),
            (HttpMethod::Get, "/api/v1/po-receipts/{id}"),
            (HttpMethod::Get, "/api/v1/supplier-quotes"),
            (HttpMethod::Post, "/api/v1/supplier-quotes"),
            (HttpMethod::Put, "/api/v1/supplier-quotes/{id}/status"),
            (HttpMethod::Get, "/api/v1/suppliers/{supplier_id}/scorecard"),
        ],
        RouteGroup::SalesCrm => vec![
            (HttpMethod::Get, "/api/v1/shipments"),
            (HttpMethod::Post, "/api/v1/shipments"),
            (HttpMethod::Put, "/api/v1/shipments/{id}/status"),
            (HttpMethod::Get, "/api/v1/sales-quotes"),
            (HttpMethod::Post, "/api/v1/sales-quotes"),
            (HttpMethod::Get, "/api/v1/sales-quotes/{id}"),
            (HttpMethod::Put, "/api/v1/sales-quotes/{id}/status"),
            (HttpMethod::Post, "/api/v1/sales-quotes/{id}/convert"),
            (HttpMethod::Get, "/api/v1/customers/{customer_id}/credit"),
        ],
        RouteGroup::InventoryAtp => vec![
            (HttpMethod::Get, "/api/v1/inventory/atp/overview"),
            (HttpMethod::Post, "/api/v1/inventory/reservations"),
            (HttpMethod::Post, "/api/v1/inventory/reservations/{id}/release"),
            (HttpMethod::Get, "/api/v1/inventory/transfers"),
            (HttpMethod::Post, "/api/v1/inventory/transfers"),
            (HttpMethod::Get, "/api/v1/inventory/count-templates"),
            (HttpMethod::Post, "/api/v1/inventory/count-templates"),
            (HttpMethod::Post, "/api/v1/inventory/count-templates/{template_id}/start"),
            (HttpMethod::Get, "/api/v1/inventory/count-sessions"),
            (HttpMethod::Post, "/api/v1/inventory/count-sessions"),
        ],
        RouteGroup::Manufacturing => vec![
            (HttpMethod::Get, "/api/v1/manufacturing/boms"),
            (HttpMethod::Post, "/api/v1/manufacturing/boms"),
            (HttpMethod::Get, "/api/v1/manufacturing/boms/{id}"),
            (HttpMethod::Get, "/api/v1/manufacturing/work-orders"),
            (HttpMethod::Post, "/api/v1/manufacturing/work-orders"),
            (HttpMethod::Get, "/api/v1/manufacturing/work-orders/{id}"),
            (HttpMethod::Post, "/api/v1/manufacturing/work-orders/{id}/start"),
            (HttpMethod::Post, "/api/v1/manufacturing/work-orders/{id}/complete-step"),
            (HttpMethod::Get, "/api/v1/manufacturing/inspections"),
            (HttpMethod::Post, "/api/v1/manufacturing/inspections"),
            (HttpMethod::Get, "/api/v1/manufacturing/ncrs"),
            (HttpMethod::Post, "/api/v1/manufacturing/ncrs"),
            (HttpMethod::Post, "/api/v1/manufacturing/ncrs/{id}/resolve"),
        ],
        RouteGroup::Project => vec![
            (HttpMethod::Get, "/api/v1/projects"),
            (HttpMethod::Post, "/api/v1/projects"),
            (HttpMethod::Get, "/api/v1/projects/{id}"),
            (HttpMethod::Put, "/api/v1/projects/{id}"),
            (HttpMethod::Get, "/api/v1/projects/{id}/wbs"),
            (HttpMethod::Post, "/api/v1/projects/{id}/wbs"),
            (HttpMethod::Put, "/api/v1/projects/{project_id}/wbs/{id}"),
            (HttpMethod::Get, "/api/v1/projects/{id}/financials"),
            (HttpMethod::Get, "/api/v1/projects/{id}/transactions"),
            (HttpMethod::Post, "/api/v1/projects/{id}/transactions"),
        ],
        RouteGroup::Assets => vec![
            (HttpMethod::Get, "/api/v1/assets"),
            (HttpMethod::Post, "/api/v1/assets"),
            (HttpMethod::Get, "/api/v1/assets/{id}"),
            (HttpMethod::Put, "/api/v1/assets/{id}"),
            (HttpMethod::Post, "/api/v1/assets/{id}/depreciate"),
            (HttpMethod::Post, "/api/v1/assets/{id}/dispose"),
        ],
        RouteGroup::Notification => vec![
            (HttpMethod::Get, "/api/v1/notifications"),
            (HttpMethod::Post, "/api/v1/notifications"),
            (HttpMethod::Get, "/api/v1/notifications/unread-count"),
            (HttpMethod::Post, "/api/v1/notifications/{id}/read"),
            (HttpMethod::Get, "/api/v1/notifications/preferences"),
            (HttpMethod::Put, "/api/v1/notifications/preferences"),
            (HttpMethod::Post, "/api/v1/notifications/templates"),
        ],
        RouteGroup::PortalAdmin => vec![
            (HttpMethod::Post, "/api/v1/portal/accounts"),
        ],
        RouteGroup::Bi => vec![
            (HttpMethod::Get, "/api/v1/bi/sales-trend"),
            (HttpMethod::Get, "/api/v1/bi/inventory-value"),
            (HttpMethod::Get, "/api/v1/bi/finance-summary"),
            (HttpMethod::Get, "/api/v1/bi/supplier-performance"),
        ],
        RouteGroup::PortalApi => vec![
            (HttpMethod::Post, "/api/v1/portal-api/login"),
            (HttpMethod::Get, "/api/v1/portal-api/purchases"),
            (HttpMethod::Post, "/api/v1/portal-api/purchases/{id}/accept"),
            (HttpMethod::Get, "/api/v1/portal-api/sales"),
            (HttpMethod::Post, "/api/v1/portal-api/sales/{id}/acknowledge"),
            (HttpMethod::Get, "/api/v1/portal-api/events"),
        ],
        RouteGroup::AdminRead => vec![
            (HttpMethod::Get, "/api/v1/users"),
        ],
        RouteGroup::InventoryRead => vec![
            (HttpMethod::Get, "/api/v1/inbound-records"),
            (HttpMethod::Get, "/api/v1/inbound-records/{id}"),
            (HttpMethod::Get, "/api/v1/outbound-records"),
            (HttpMethod::Get, "/api/v1/outbound-records/{id}"),
            (HttpMethod::Get, "/api/v1/inventory"),
            (HttpMethod::Get, "/api/v1/inventory/logs"),
            (HttpMethod::Get, "/api/v1/items/search"),
            (HttpMethod::Get, "/api/v1/items"),
            (HttpMethod::Get, "/api/v1/items/{id}"),
            (HttpMethod::Get, "/api/v1/locations"),
            (HttpMethod::Get, "/api/v1/locations/{id}"),
            (HttpMethod::Get, "/api/v1/inventory/checks"),
            (HttpMethod::Get, "/api/v1/inventory/checks/{id}"),
            (HttpMethod::Get, "/api/v1/trace/items/{item_id}"),
            (HttpMethod::Get, "/api/v1/trace/order/{order_type}/{order_id}"),
            (HttpMethod::Get, "/api/v1/inventory/statistics"),
            (HttpMethod::Get, "/api/v1/inbound-records/{id}/items"),
            (HttpMethod::Get, "/api/v1/outbound-records/{id}/items"),
            (HttpMethod::Get, "/api/v1/atp"),
            (HttpMethod::Get, "/api/v1/inventory/inbound/search"),
            (HttpMethod::Get, "/api/v1/inventory/outbound/search"),
        ],
        RouteGroup::DataIoTemplates => vec![
            (HttpMethod::Get, "/api/v1/data-io/templates/{entity_type}"),
        ],
        RouteGroup::DataIoExport => vec![
            (HttpMethod::Get, "/api/v1/data-io/export/{entity_type}"),
        ],
        RouteGroup::DataIoLogs => vec![
            (HttpMethod::Get, "/api/v1/data-io/operation-logs"),
        ],
        RouteGroup::SupplierRead => vec![
            (HttpMethod::Get, "/api/v1/suppliers/search"),
            (HttpMethod::Get, "/api/v1/suppliers/active"),
            (HttpMethod::Get, "/api/v1/suppliers"),
            (HttpMethod::Get, "/api/v1/suppliers/{id}"),
        ],
        RouteGroup::CustomerRead => vec![
            (HttpMethod::Get, "/api/v1/customers/search"),
            (HttpMethod::Get, "/api/v1/customers/active"),
            (HttpMethod::Get, "/api/v1/customers"),
            (HttpMethod::Get, "/api/v1/customers/{id}"),
        ],
        RouteGroup::PurchaseRead => vec![
            (HttpMethod::Get, "/api/v1/purchase-orders"),
            (HttpMethod::Get, "/api/v1/purchase-orders/{id}"),
            (HttpMethod::Get, "/api/v1/purchase-orders/search"),
        ],
        RouteGroup::SalesRead => vec![
            (HttpMethod::Get, "/api/v1/sales-orders"),
            (HttpMethod::Get, "/api/v1/sales-orders/{id}"),
            (HttpMethod::Get, "/api/v1/sales-orders/search"),
        ],
        RouteGroup::ContractRead => vec![
            (HttpMethod::Get, "/api/v1/contracts"),
            (HttpMethod::Get, "/api/v1/contracts/{id}"),
            (HttpMethod::Get, "/api/v1/contracts/{contract_id}/payments"),
        ],
        RouteGroup::Reports => vec![
            (HttpMethod::Get, "/api/v1/reports/inventory-summary"),
            (HttpMethod::Get, "/api/v1/reports/order-report"),
            (HttpMethod::Get, "/api/v1/reports/quality-report"),
            (HttpMethod::Get, "/api/v1/reports/dashboard"),
        ],
        RouteGroup::Import => vec![
            (HttpMethod::Post, "/api/v1/data-io/import/{entity_type}"),
        ],
        RouteGroup::UserAdmin => vec![
            (HttpMethod::Post, "/api/v1/users"),
            (HttpMethod::Put, "/api/v1/users/{id}"),
            (HttpMethod::Delete, "/api/v1/users/{id}"),
            (HttpMethod::Put, "/api/v1/users/{id}/role"),
        ],
        RouteGroup::WarehouseWrite => vec![
            (HttpMethod::Post, "/api/v1/inbound-records"),
            (HttpMethod::Put, "/api/v1/inbound-records/{id}"),
            (HttpMethod::Delete, "/api/v1/inbound-records/{id}"),
            (HttpMethod::Post, "/api/v1/inbound-records/{id}/approve"),
            (HttpMethod::Post, "/api/v1/inbound-records/{id}/reject"),
            (HttpMethod::Post, "/api/v1/outbound-records"),
            (HttpMethod::Put, "/api/v1/outbound-records/{id}"),
            (HttpMethod::Delete, "/api/v1/outbound-records/{id}"),
            (HttpMethod::Post, "/api/v1/outbound-records/{id}/approve"),
            (HttpMethod::Post, "/api/v1/outbound-records/{id}/reject"),
            (HttpMethod::Post, "/api/v1/locations"),
            (HttpMethod::Put, "/api/v1/locations/{id}"),
            (HttpMethod::Delete, "/api/v1/locations/{id}"),
            (HttpMethod::Post, "/api/v1/items"),
            (HttpMethod::Put, "/api/v1/items/{id}"),
            (HttpMethod::Delete, "/api/v1/items/{id}"),
            (HttpMethod::Post, "/api/v1/inventory/checks"),
            (HttpMethod::Post, "/api/v1/inventory/checks/{id}/complete"),
            (HttpMethod::Put, "/api/v1/inventory/checks/{check_id}/items/{item_id}"),
            (HttpMethod::Post, "/api/v1/inbound-records/batch"),
        ],
        RouteGroup::SalesWrite => vec![
            (HttpMethod::Post, "/api/v1/sales-orders"),
            (HttpMethod::Put, "/api/v1/sales-orders/{id}"),
            (HttpMethod::Delete, "/api/v1/sales-orders/{id}"),
            (HttpMethod::Post, "/api/v1/sales-orders/{id}/transition"),
            (HttpMethod::Put, "/api/v1/sales-orders/{order_id}/items/{item_id}"),
            (HttpMethod::Delete, "/api/v1/sales-orders/{order_id}/items/{item_id}"),
            (HttpMethod::Post, "/api/v1/sales-orders/{id}/approve"),
            (HttpMethod::Post, "/api/v1/sales-orders/{id}/reject"),
            (HttpMethod::Post, "/api/v1/sales-orders/{id}/link-outbound"),
        ],
        RouteGroup::PurchasesWrite => vec![
            (HttpMethod::Post, "/api/v1/purchase-orders"),
            (HttpMethod::Put, "/api/v1/purchase-orders/{id}"),
            (HttpMethod::Delete, "/api/v1/purchase-orders/{id}"),
            (HttpMethod::Post, "/api/v1/purchase-orders/{id}/transition"),
            (HttpMethod::Put, "/api/v1/purchase-orders/{order_id}/items/{item_id}"),
            (HttpMethod::Delete, "/api/v1/purchase-orders/{order_id}/items/{item_id}"),
            (HttpMethod::Post, "/api/v1/purchase-orders/{id}/approve"),
            (HttpMethod::Post, "/api/v1/purchase-orders/{id}/reject"),
            (HttpMethod::Post, "/api/v1/purchase-orders/{id}/link-inbound"),
        ],
        RouteGroup::PartiesWrite => vec![
            (HttpMethod::Post, "/api/v1/suppliers"),
            (HttpMethod::Put, "/api/v1/suppliers/{id}"),
            (HttpMethod::Delete, "/api/v1/suppliers/{id}"),
            (HttpMethod::Post, "/api/v1/customers"),
            (HttpMethod::Put, "/api/v1/customers/{id}"),
            (HttpMethod::Delete, "/api/v1/customers/{id}"),
        ],
        RouteGroup::ContractWrite => vec![
            (HttpMethod::Post, "/api/v1/contracts"),
            (HttpMethod::Put, "/api/v1/contracts/{id}"),
            (HttpMethod::Delete, "/api/v1/contracts/{id}"),
            (HttpMethod::Post, "/api/v1/contracts/{id}/status"),
            (HttpMethod::Post, "/api/v1/contracts/{contract_id}/items"),
            (HttpMethod::Put, "/api/v1/contracts/{contract_id}/items/{item_id}"),
            (HttpMethod::Delete, "/api/v1/contracts/{contract_id}/items/{item_id}"),
            (HttpMethod::Post, "/api/v1/contracts/{contract_id}/payments"),
            (HttpMethod::Put, "/api/v1/contracts/{contract_id}/payments/{payment_id}"),
            (HttpMethod::Delete, "/api/v1/contracts/{contract_id}/payments/{payment_id}"),
        ],
    };
    assert(r@ =~= group_routes(g));
    r
}

/// The groups in the order they are merged into the application.
pub open spec fn route_groups() -> Seq<RouteGroup> {
    seq![
        RouteGroup::Public,
        RouteGroup::PublicAuth,
        RouteGroup::Authenticated,
        RouteGroup::Rbac,
        RouteGroup::Workflow,
        RouteGroup::Hr,
        RouteGroup::Finance,
        RouteGroup::Procurement,
        RouteGroup::SalesCrm,
        RouteGroup::InventoryAtp,
        RouteGroup::Manufacturing,
        RouteGroup::Project,
        RouteGroup::Assets,
        RouteGroup::Notification,
        RouteGroup::PortalAdmin,
        RouteGroup::Bi,
        RouteGroup::PortalApi,
        RouteGroup::AdminRead,
        RouteGroup::InventoryRead,
        RouteGroup::DataIoTemplates,
        RouteGroup::DataIoExport,
        RouteGroup::DataIoLogs,
        RouteGroup::SupplierRead,
        RouteGroup::CustomerRead,
        RouteGroup::PurchaseRead,
        RouteGroup::SalesRead,
        RouteGroup::ContractRead,
        RouteGroup::Reports,
        RouteGroup::Import,
        RouteGroup::UserAdmin,
        RouteGroup::WarehouseWrite,
        RouteGroup::SalesWrite,
        RouteGroup::PurchasesWrite,
        RouteGroup::PartiesWrite,
        RouteGroup::ContractWrite,
    ]
}

/// The groups in merge order.
pub fn groups_in_order() -> (r: Vec<RouteGroup>)
    ensures
        r@ == route_groups(),
{
    let r: Vec<RouteGroup> = vec![
        RouteGroup::Public,
        RouteGroup::PublicAuth,
        RouteGroup::Authenticated,
        RouteGroup::Rbac,
        RouteGroup::Workflow,
        RouteGroup::Hr,
        RouteGroup::Finance,
        RouteGroup::Procurement,
        RouteGroup::SalesCrm,
        RouteGroup::InventoryAtp,
        RouteGroup::Manufacturing,
        RouteGroup::Project,
        RouteGroup::Assets,
        RouteGroup::Notification,
        RouteGroup::PortalAdmin,
        RouteGroup::Bi,
        RouteGroup::PortalApi,
        RouteGroup::AdminRead,
        RouteGroup::InventoryRead,
        RouteGroup::DataIoTemplates,
        RouteGroup::DataIoExport,
        RouteGroup::DataIoLogs,
        RouteGroup::SupplierRead,
        RouteGroup::CustomerRead,
        RouteGroup::PurchaseRead,
        RouteGroup::SalesRead,
        RouteGroup::ContractRead,
        RouteGroup::Reports,
        RouteGroup::Import,
        RouteGroup::UserAdmin,
        RouteGroup::WarehouseWrite,
        RouteGroup::SalesWrite,
        RouteGroup::PurchasesWrite,
        RouteGroup::PartiesWrite,
        RouteGroup::ContractWrite,
    ];
    assert(r@ =~= route_groups());
    r
}

} // verus!
