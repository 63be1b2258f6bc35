//! Resolving a request to its route group, and the access rules the route table keeps.
use vstd::prelude::*;

use crate::route_table::{
    group_guards, group_routes, groups_in_order, guards_of, route_groups, routes_of, Guard,
    HttpMethod, RouteGroup,
};
use crate::text::str_eq;

verus! {

/// Whether a group registers `method` on the path template `path`.
pub open spec fn has_route(g: RouteGroup, method: HttpMethod, path: Seq<char>) -> bool {
    exists|i: int|
        0 <= i < group_routes(g).len() && #[trigger] group_routes(g)[i].0 == method
            && group_routes(g)[i].1@ == path
}

/// The first group of `order` that registers `method` on `path`.
pub open spec fn first_group(order: Seq<RouteGroup>, method: HttpMethod, path: Seq<char>) -> Option<
    RouteGroup,
>
    decreases order.len(),
{
    if order.len() == 0 {
        None
    } else if has_route(order[0], method, path) {
        Some(order[0])
    } else {
        first_group(order.drop_first(), method, path)
    }
}

/// The group that serves `method` on the path template `path`, if any.
pub open spec fn routed_group(method: HttpMethod, path: Seq<char>) -> Option<RouteGroup> {
    first_group(route_groups(), method, path)
}

/// Whether a group registers `method` on the path template `path`.
pub fn group_has_route(g: RouteGroup, method: HttpMethod, path: &str) -> (r: bool)
    ensures
        r == has_route(g, method, path@),
{
    let routes = routes_of(g);
    let mut i: usize = 0;
    while i < routes.len()
        invariant
            routes@ == group_routes(g),
            i <= routes.len(),
            forall|j: int|
                0 <= j < i ==> !(#[trigger] group_routes(g)[j].0 == method && group_routes(
                    g,
                )[j].1@ == path@),
        decreases routes.len() - i,
    {
        let (m, p) = routes[i];
        if m == method && str_eq(p, path) {
            assert(group_routes(g)[i as int].0 == method);
            return true;
        }
        i = i + 1;
    }
    false
}

/// The group that serves `method` on the path template `path` (the template under which
/// the router matched the request), or `None` when no route is registered for it.
pub fn route_group(method: HttpMethod, path: &str) -> (r: Option<RouteGroup>)
    ensures
        r == routed_group(method, path@),
{
    let order = groups_in_order();
    let mut k: usize = 0;
    assert(route_groups().skip(0) =~= route_groups());
    while k < order.len()
        invariant
            order@ == route_groups(),
            k <= order.len(),
            first_group(route_groups(), method, path@) == first_group(
                route_groups().skip(k as int),
                method,
                path@,
            ),
        decreases order.len() - k,
    {
        let g = order[k];
        proof {
            let tail = route_groups().skip(k as int);
            assert(tail[0] == g);
            assert(tail.drop_first() =~= route_groups().skip(k as int + 1));
        }
        if group_has_route(g, method, path) {
            return Some(g);
        }
        k = k + 1;
    }
    assert(route_groups().skip(k as int).len() == 0);
    None
}

/// The guards, outermost first, that stand before the handler of `method` on the path
/// template `path`; `None` when no route is registered for it.
pub fn route_guards(method: HttpMethod, path: &str) -> (r: Option<Vec<Guard>>)
    ensures
        match r {
            Some(gs) => routed_group(method, path@) is Some && gs@ == group_guards(
                routed_group(method, path@).unwrap(),
            ),
            None => routed_group(method, path@) is None,
        },
{
    match route_group(method, path) {
        Some(g) => Some(guards_of(g)),
        None => None,
    }
}

// ---------------------------------------------------------------------------
// Access rules of the route table
// ---------------------------------------------------------------------------

/// Whether a guard chain checks the caller's role.
pub open spec fn checks_role(gs: Seq<Guard>) -> bool {
    exists|j: int| 0 <= j < gs.len() && #[trigger] gs[j] is RequireRoles
}

/// Whether a guard chain requires a valid access token.
pub open spec fn requires_login(gs: Seq<Guard>) -> bool {
    exists|j: int| 0 <= j < gs.len() && #[trigger] gs[j] == Guard::Authenticate
}

/// The groups whose writes need no particular role: sign-in, the caller's own account,
/// workflow tasks, the caller's notifications, and the partner portal.
pub open spec fn open_for_writes(g: RouteGroup) -> bool {
    ||| g is PublicAuth
    ||| g is Authenticated
    ||| g is Workflow
    ||| g is Notification
    ||| g is PortalApi
}

/// Whether every route of the sequence is a `GET`.
pub open spec fn all_reads(s: Seq<(HttpMethod, &'static str)>) -> bool
    decreases s.len(),
{
    s.len() == 0 || (s[0].0 is Get && all_reads(s.drop_first()))
}

proof fn lemma_all_reads_index(s: Seq<(HttpMethod, &'static str)>, i: int)
    requires
        all_reads(s),
        0 <= i < s.len(),
    ensures
        s[i].0 is Get,
    decreases s.len(),
{
    if i > 0 {
        lemma_all_reads_index(s.drop_first(), i - 1);
    }
}

proof fn lemma_first_group_registers(
    order: Seq<RouteGroup>,
    method: HttpMethod,
    path: Seq<char>,
)
    requires
        first_group(order, method, path) is Some,
    ensures
        has_route(first_group(order, method, path).unwrap(), method, path),
    decreases order.len(),
{
    if order.len() > 0 && !has_route(order[0], method, path) {
        lemma_first_group_registers(order.drop_first(), method, path);
    }
}

/// The groups outside `open_for_writes` that have no role check serve reads only.
proof fn lemma_unchecked_groups_read(g: RouteGroup)
    requires
        !open_for_writes(g),
        !checks_role(group_guards(g)),
    ensures
        all_reads(group_routes(g)),
{
    match g {
        RouteGroup::Public => {
            reveal_with_fuel(all_reads, 3);
        },
        RouteGroup::InventoryRead => {
            reveal_with_fuel(all_reads, 22);
        },
        RouteGroup::DataIoTemplates => {
            reveal_with_fuel(all_reads, 2);
        },
        RouteGroup::SupplierRead | RouteGroup::CustomerRead | RouteGroup::Reports => {
            reveal_with_fuel(all_reads, 5);
        },
        RouteGroup::PurchaseRead | RouteGroup::SalesRead | RouteGroup::ContractRead => {
            reveal_with_fuel(all_reads, 4);
        },
        _ => {
            assert(group_guards(g)[1] is RequireRoles || group_guards(g)[0] is RequireRoles);
        },
    }
}

/// Every write (`POST`, `PUT` or `DELETE`) that the router serves passes a role check,
/// except in the groups open to any caller for writes: sign-in, the caller's own account,
/// workflow tasks, notifications and the partner portal.
pub proof fn lemma_writes_pass_role_check(method: HttpMethod, path: Seq<char>)
    requires
        routed_group(method, path) is Some,
        method.is_write(),
        !open_for_writes(routed_group(method, path).unwrap()),
    ensures
        checks_role(group_guards(routed_group(method, path).unwrap())),
{
    let g = routed_group(method, path).unwrap();
    lemma_first_group_registers(route_groups(), method, path);
    let i = choose|i: int|
        0 <= i < group_routes(g).len() && #[trigger] group_routes(g)[i].0 == method
            && group_routes(g)[i].1@ == path;
    if !checks_role(group_guards(g)) {
        lemma_unchecked_groups_read(g);
        lemma_all_reads_index(group_routes(g), i);
    }
}

/// The reports are read-only: every route of the report group is a `GET`.
pub proof fn lemma_reports_read_only(i: int)
    requires
        0 <= i < group_routes(RouteGroup::Reports).len(),
    ensures
        group_routes(RouteGroup::Reports)[i].0 is Get,
{
    reveal_with_fuel(all_reads, 5);
    lemma_all_reads_index(group_routes(RouteGroup::Reports), i);
}

/// The administrator passes every role check of the table.
pub proof fn lemma_admin_passes_role_checks(g: RouteGroup, j: int)
    requires
        0 <= j < group_guards(g).len(),
        group_guards(g)[j] is RequireRoles,
    ensures
        group_guards(g)[j]->RequireRoles_0.admin,
{
}

/// Only the health probes, sign-in with token refresh, and the partner portal (which
/// carries its own token) are reachable without an access token.
pub proof fn lemma_public_groups(g: RouteGroup)
    ensures
        !requires_login(group_guards(g)) <==> (g is Public || g is PublicAuth || g is PortalApi),
{
    match g {
        RouteGroup::Public | RouteGroup::PublicAuth | RouteGroup::PortalApi => {},
        RouteGroup::AdminRead => {
            assert(group_guards(g)[1] == Guard::Authenticate);
        },
        _ => {
            assert(group_guards(g)[0] == Guard::Authenticate);
        },
    }
}

} // verus!
