use erp_v2::route_table::{groups_in_order, guards_of, routes_of, Guard, HttpMethod, RateLimit, RoleSet, RouteGroup};
use erp_v2::routes::{group_has_route, route_group, route_guards};

fn roles(admin: bool, warehouse: bool, sales: bool) -> Guard {
    Guard::RequireRoles(RoleSet { admin, warehouse, sales })
}

#[test]
fn health_probes_are_public() {
    assert_eq!(route_guards(HttpMethod::Get, "/api/v1/health"), Some(vec![]));
    assert_eq!(route_guards(HttpMethod::Get, "/api/v1/health/ready"), Some(vec![]));
}

#[test]
fn sign_in_is_rate_limited_without_token() {
    let expected = Some(vec![Guard::Limit(RateLimit::Login)]);
    assert_eq!(route_guards(HttpMethod::Post, "/api/v1/auth/login"), expected);
    assert_eq!(route_guards(HttpMethod::Post, "/api/v1/auth/refresh"), expected);
}

#[test]
fn own_account_routes_need_login_only() {
    let expected = Some(vec![Guard::Authenticate, Guard::Limit(RateLimit::PasswordChange)]);
    assert_eq!(route_guards(HttpMethod::Post, "/api/v1/auth/logout"), expected);
    assert_eq!(route_guards(HttpMethod::Get, "/api/v1/auth/me"), expected);
    assert_eq!(route_guards(HttpMethod::Put, "/api/v1/auth/me"), expected);
    assert_eq!(route_guards(HttpMethod::Post, "/api/v1/users/{id}/change-password"), expected);
}

#[test]
fn user_administration_is_admin_only() {
    let expected = Some(vec![Guard::Authenticate, roles(true, false, false)]);
    assert_eq!(route_guards(HttpMethod::Post, "/api/v1/users"), expected);
    assert_eq!(route_guards(HttpMethod::Put, "/api/v1/users/{id}"), expected);
    assert_eq!(route_guards(HttpMethod::Delete, "/api/v1/users/{id}"), expected);
    assert_eq!(route_guards(HttpMethod::Put, "/api/v1/users/{id}/role"), expected);
    // The user list checks the role before the token.
    assert_eq!(
        route_guards(HttpMethod::Get, "/api/v1/users"),
        Some(vec![roles(true, false, false), Guard::Authenticate])
    );
}

#[test]
fn inbound_and_outbound_writes_need_admin_or_warehouse() {
    let expected = Some(vec![Guard::Authenticate, roles(true, true, false)]);
    assert_eq!(route_guards(HttpMethod::Post, "/api/v1/inbound-records"), expected);
    assert_eq!(route_guards(HttpMethod::Post, "/api/v1/inbound-records/{id}/approve"), expected);
    assert_eq!(route_guards(HttpMethod::Post, "/api/v1/inbound-records/batch"), expected);
    assert_eq!(route_guards(HttpMethod::Delete, "/api/v1/outbound-records/{id}"), expected);
    assert_eq!(route_guards(HttpMethod::Put, "/api/v1/inventory/checks/{check_id}/items/{item_id}"), expected);
}

#[test]
fn inbound_reads_need_login_only() {
    let expected = Some(vec![Guard::Authenticate]);
    assert_eq!(route_guards(HttpMethod::Get, "/api/v1/inbound-records"), expected);
    assert_eq!(route_guards(HttpMethod::Get, "/api/v1/outbound-records/{id}/items"), expected);
    assert_eq!(route_guards(HttpMethod::Get, "/api/v1/atp"), expected);
}

#[test]
fn sales_writes_need_admin_or_sales() {
    let expected = Some(vec![Guard::Authenticate, roles(true, false, true)]);
    assert_eq!(route_guards(HttpMethod::Post, "/api/v1/sales-orders"), expected);
    assert_eq!(route_guards(HttpMethod::Put, "/api/v1/sales-orders/{id}"), expected);
    assert_eq!(route_guards(HttpMethod::Post, "/api/v1/sales-orders/{id}/link-outbound"), expected);
}

#[test]
fn purchase_party_and_contract_writes_need_one_of_three_roles() {
    let expected = Some(vec![Guard::Authenticate, roles(true, true, true)]);
    assert_eq!(route_guards(HttpMethod::Post, "/api/v1/purchase-orders"), expected);
    assert_eq!(route_guards(HttpMethod::Post, "/api/v1/suppliers"), expected);
    assert_eq!(route_guards(HttpMethod::Delete, "/api/v1/customers/{id}"), expected);
    assert_eq!(route_guards(HttpMethod::Post, "/api/v1/contracts/{id}/status"), expected);
    assert_eq!(
        route_guards(HttpMethod::Delete, "/api/v1/contracts/{contract_id}/payments/{payment_id}"),
        expected
    );
}

#[test]
fn data_io_routes_follow_their_own_rules() {
    assert_eq!(
        route_guards(HttpMethod::Get, "/api/v1/data-io/templates/{entity_type}"),
        Some(vec![Guard::Authenticate])
    );
    assert_eq!(
        route_guards(HttpMethod::Post, "/api/v1/data-io/import/{entity_type}"),
        Some(vec![Guard::Authenticate, roles(true, false, false), Guard::Limit(RateLimit::Import)])
    );
    assert_eq!(
        route_guards(HttpMethod::Get, "/api/v1/data-io/export/{entity_type}"),
        Some(vec![Guard::Authenticate, roles(true, true, true)])
    );
    assert_eq!(
        route_guards(HttpMethod::Get, "/api/v1/data-io/operation-logs"),
        Some(vec![Guard::Authenticate, roles(true, false, false)])
    );
}

#[test]
fn reports_are_read_only() {
    assert_eq!(route_guards(HttpMethod::Get, "/api/v1/reports/dashboard"), Some(vec![Guard::Authenticate]));
    assert_eq!(route_guards(HttpMethod::Post, "/api/v1/reports/dashboard"), None);
    for (method, _) in routes_of(RouteGroup::Reports) {
        assert_eq!(method, HttpMethod::Get);
    }
}

#[test]
fn unknown_routes_resolve_to_nothing() {
    assert_eq!(route_guards(HttpMethod::Get, "/api/v1/nowhere"), None);
    assert_eq!(route_guards(HttpMethod::Delete, "/api/v1/health"), None);
    assert_eq!(route_group(HttpMethod::Get, "/api/v1/users/5"), None);
}

#[test]
fn routes_resolve_to_their_group() {
    assert_eq!(route_group(HttpMethod::Get, "/api/v1/bi/sales-trend"), Some(RouteGroup::Bi));
    assert_eq!(route_group(HttpMethod::Post, "/api/v1/workflows/definitions"), Some(RouteGroup::Workflow));
    assert_eq!(route_group(HttpMethod::Get, "/api/v1/portal-api/events"), Some(RouteGroup::PortalApi));
    assert!(group_has_route(RouteGroup::Finance, HttpMethod::Post, "/api/v1/invoices/{id}/void"));
    assert!(!group_has_route(RouteGroup::Finance, HttpMethod::Delete, "/api/v1/invoices/{id}"));
}

#[test]
fn every_write_outside_open_groups_checks_a_role() {
    for g in groups_in_order() {
        let open = matches!(
            g,
            RouteGroup::PublicAuth
                | RouteGroup::Authenticated
                | RouteGroup::Workflow
                | RouteGroup::Notification
                | RouteGroup::PortalApi
        );
        let guards = guards_of(g);
        let role_checked = guards.iter().any(|x| matches!(x, Guard::RequireRoles(_)));
        for (method, _) in routes_of(g) {
            if method != HttpMethod::Get && !open {
                assert!(role_checked, "{:?}", g);
            }
        }
        for x in guards {
            if let Guard::RequireRoles(set) = x {
                assert!(set.admin);
            }
        }
    }
}

#[test]
fn route_table_size() {
    let total: usize = groups_in_order().into_iter().map(|g| routes_of(g).len()).sum();
    assert_eq!(total, 246);
    assert_eq!(groups_in_order().len(), 35);
}

#[test]
fn method_tokens_parse() {
    assert_eq!(HttpMethod::parse("GET"), Some(HttpMethod::Get));
    assert_eq!(HttpMethod::parse("POST"), Some(HttpMethod::Post));
    assert_eq!(HttpMethod::parse("PUT"), Some(HttpMethod::Put));
    assert_eq!(HttpMethod::parse("DELETE"), Some(HttpMethod::Delete));
    assert_eq!(HttpMethod::parse("get"), None);
    assert_eq!(HttpMethod::parse("PATCH"), None);
}

#[test]
fn role_sets_list_names_in_order() {
    assert_eq!(RoleSet { admin: true, warehouse: true, sales: true }.names(), vec!["admin", "warehouse", "sales"]);
    assert_eq!(RoleSet { admin: true, warehouse: false, sales: true }.names(), vec!["admin", "sales"]);
    assert_eq!(RoleSet { admin: false, warehouse: false, sales: false }.names(), Vec::<&str>::new());
}

#[test]
fn no_route_is_registered_twice() {
    let mut seen: Vec<(HttpMethod, &str)> = Vec::new();
    for g in groups_in_order() {
        for (method, path) in routes_of(g) {
            assert!(!seen.contains(&(method, path)), "{:?} {}", method, path);
            seen.push((method, path));
        }
    }
    assert_eq!(seen.len(), 246);
}
