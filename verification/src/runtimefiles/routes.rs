//! The routes of the runtime-file endpoints.

use vstd::prelude::*;
use crate::runtimefiles::access::Endpoint;
use crate::text::ascii_lower;
use crate::webserver::BaseUriPath;

verus! {

/// HTTP methods that the routes are for.
#[derive(Clone, Copy, Debug, PartialEq, Eq, Structural)]
pub enum Method {
    Get,
    Post,
    Delete,
}

pub const CURRENT_ROUTE: &'static str = "/apps/sovd2uds/bulk-data/runtimefiles-current";

pub const NEXTUPDATE_ROUTE: &'static str = "/apps/sovd2uds/bulk-data/runtimefiles-nextupdate";

pub const NEXTUPDATE_ID_ROUTE: &'static str =
    "/apps/sovd2uds/bulk-data/runtimefiles-nextupdate/{id}";

pub const BACKUP_ROUTE: &'static str = "/apps/sovd2uds/bulk-data/runtimefiles-backup";

pub const EXECUTIONS_ROUTE: &'static str =
    "/apps/sovd2uds/bulk-data/runtimefiles-nextupdate/executions";

pub const EXECUTIONS_ID_ROUTE: &'static str =
    "/apps/sovd2uds/bulk-data/runtimefiles-nextupdate/executions/{id}";

pub const OPERATION_ROUTE: &'static str = "/apps/sovd2uds/operations/diagnostic-database-update";

/// A route: what serves requests with this method on this path, and whether the limit
/// for uploads holds for their bodies.
#[derive(Clone, Copy, Debug)]
pub struct Route {
    pub path: &'static str,
    pub method: Method,
    pub endpoint: Endpoint,
    pub upload_limited: bool,
}

/// The routes.
pub open spec fn all_routes() -> Seq<Route> {
    seq![
        Route {
            path: CURRENT_ROUTE,
            method: Method::Get,
            endpoint: Endpoint::CurrentGet,
            upload_limited: false,
        },
        Route {
            path: NEXTUPDATE_ROUTE,
            method: Method::Get,
            endpoint: Endpoint::NextupdateGet,
            upload_limited: true,
        },
        Route {
            path: NEXTUPDATE_ROUTE,
            method: Method::Post,
            endpoint: Endpoint::NextupdatePost,
            upload_limited: true,
        },
        Route {
            path: NEXTUPDATE_ROUTE,
            method: Method::Delete,
            endpoint: Endpoint::NextupdateDelete,
            upload_limited: false,
        },
        Route {
            path: NEXTUPDATE_ID_ROUTE,
            method: Method::Delete,
            endpoint: Endpoint::NextupdateIdDelete,
            upload_limited: false,
        },
        Route {
            path: BACKUP_ROUTE,
            method: Method::Get,
            endpoint: Endpoint::BackupGet,
            upload_limited: false,
        },
        Route {
            path: BACKUP_ROUTE,
            method: Method::Delete,
            endpoint: Endpoint::BackupDelete,
            upload_limited: false,
        },
        Route {
            path: EXECUTIONS_ROUTE,
            method: Method::Get,
            endpoint: Endpoint::ExecutionsGet,
            upload_limited: false,
        },
        Route {
            path: EXECUTIONS_ROUTE,
            method: Method::Post,
            endpoint: Endpoint::ExecutionsPost,
            upload_limited: false,
        },
        Route {
            path: EXECUTIONS_ID_ROUTE,
            method: Method::Get,
            endpoint: Endpoint::ExecutionsIdGet,
            upload_limited: false,
        },
        Route {
            path: OPERATION_ROUTE,
            method: Method::Post,
            endpoint: Endpoint::ExecutionsPost,
            upload_limited: false,
        },
    ]
}

fn route(path: &'static str, method: Method, endpoint: Endpoint) -> (r: Route)
    ensures
        r == (Route { path, method, endpoint, upload_limited: false }),
{
    Route { path, method, endpoint, upload_limited: false }
}

fn limited(route: Route) -> (r: Route)
    ensures
        r == (Route { upload_limited: true, ..route }),
{
    Route { upload_limited: true, ..route }
}

/// Each endpoint has its own method and path.
pub proof fn lemma_routes_of_endpoints()
    ensures
        forall|i: int|
            0 <= i < all_routes().len() ==> {
                let route = #[trigger] all_routes()[i];
                match route.endpoint {
                    Endpoint::CurrentGet => route.method == Method::Get && route.path@
                        == "/apps/sovd2uds/bulk-data/runtimefiles-current"@,
                    Endpoint::NextupdateGet => route.method == Method::Get && route.path@
                        == "/apps/sovd2uds/bulk-data/runtimefiles-nextupdate"@,
                    Endpoint::NextupdatePost => route.method == Method::Post && route.path@
                        == "/apps/sovd2uds/bulk-data/runtimefiles-nextupdate"@,
                    Endpoint::NextupdateDelete => route.method == Method::Delete && route.path@
                        == "/apps/sovd2uds/bulk-data/runtimefiles-nextupdate"@,
                    Endpoint::NextupdateIdDelete => route.method == Method::Delete && route.path@
                        == "/apps/sovd2uds/bulk-data/runtimefiles-nextupdate/{id}"@,
                    Endpoint::BackupGet => route.method == Method::Get && route.path@
                        == "/apps/sovd2uds/bulk-data/runtimefiles-backup"@,
                    Endpoint::BackupDelete => route.method == Method::Delete && route.path@
                        == "/apps/sovd2uds/bulk-data/runtimefiles-backup"@,
                    Endpoint::ExecutionsGet => route.method == Method::Get && route.path@
                        == "/apps/sovd2uds/bulk-data/runtimefiles-nextupdate/executions"@,
                    Endpoint::ExecutionsIdGet => route.method == Method::Get && route.path@
                        == "/apps/sovd2uds/bulk-data/runtimefiles-nextupdate/executions/{id}"@,
                    Endpoint::ExecutionsPost => route.method == Method::Post && (route.path@
                        == "/apps/sovd2uds/bulk-data/runtimefiles-nextupdate/executions"@
                        || route.path@
                        == "/apps/sovd2uds/operations/diagnostic-database-update"@),
                }
            },
        forall|i: int|
            0 <= i < all_routes().len() ==> {
                let route = #[trigger] all_routes()[i];
                route.upload_limited <==> route.endpoint == Endpoint::NextupdateGet
                    || route.endpoint == Endpoint::NextupdatePost
            },
{
}

/// Each endpoint is mounted, and the one that starts an execution on both of its paths.
pub proof fn lemma_every_endpoint_is_mounted(endpoint: Endpoint)
    ensures
        exists|i: int|
            0 <= i < all_routes().len() && (#[trigger] all_routes()[i]).endpoint == endpoint,
        exists|i: int|
            0 <= i < all_routes().len() && (#[trigger] all_routes()[i]).endpoint
                == Endpoint::ExecutionsPost && all_routes()[i].path@
                == "/apps/sovd2uds/bulk-data/runtimefiles-nextupdate/executions"@,
        exists|i: int|
            0 <= i < all_routes().len() && (#[trigger] all_routes()[i]).endpoint
                == Endpoint::ExecutionsPost && all_routes()[i].path@
                == "/apps/sovd2uds/operations/diagnostic-database-update"@,
{
    let all = all_routes();
    assert(all[0].endpoint == Endpoint::CurrentGet);
    assert(all[1].endpoint == Endpoint::NextupdateGet);
    assert(all[2].endpoint == Endpoint::NextupdatePost);
    assert(all[3].endpoint == Endpoint::NextupdateDelete);
    assert(all[4].endpoint == Endpoint::NextupdateIdDelete);
    assert(all[5].endpoint == Endpoint::BackupGet);
    assert(all[6].endpoint == Endpoint::BackupDelete);
    assert(all[7].endpoint == Endpoint::ExecutionsGet);
    assert(all[8].endpoint == Endpoint::ExecutionsPost);
    assert(all[9].endpoint == Endpoint::ExecutionsIdGet);
    assert(all[10].endpoint == Endpoint::ExecutionsPost);
}

/// The routes that are mounted below the base path of the vehicle. Each endpoint is
/// mounted under its own method and path, and the limit for uploads holds on the path of
/// the pending files, for reading and uploading.
pub fn routes() -> (r: Vec<Route>)
    ensures
        r@ == all_routes(),
        r@.len() == 11,
        forall|i: int|
            0 <= i < r@.len() ==> {
                let route = #[trigger] r@[i];
                match route.endpoint {
                    Endpoint::CurrentGet => route.method == Method::Get && route.path@
                        == "/apps/sovd2uds/bulk-data/runtimefiles-current"@,
                    Endpoint::NextupdateGet => route.method == Method::Get && route.path@
                        == "/apps/sovd2uds/bulk-data/runtimefiles-nextupdate"@,
                    Endpoint::NextupdatePost => route.method == Method::Post && route.path@
                        == "/apps/sovd2uds/bulk-data/runtimefiles-nextupdate"@,
                    Endpoint::NextupdateDelete => route.method == Method::Delete && route.path@
                        == "/apps/sovd2uds/bulk-data/runtimefiles-nextupdate"@,
                    Endpoint::NextupdateIdDelete => route.method == Method::Delete && route.path@
                        == "/apps/sovd2uds/bulk-data/runtimefiles-nextupdate/{id}"@,
                    Endpoint::BackupGet => route.method == Method::Get && route.path@
                        == "/apps/sovd2uds/bulk-data/runtimefiles-backup"@,
                    Endpoint::BackupDelete => route.method == Method::Delete && route.path@
                        == "/apps/sovd2uds/bulk-data/runtimefiles-backup"@,
                    Endpoint::ExecutionsGet => route.method == Method::Get && route.path@
                        == "/apps/sovd2uds/bulk-data/runtimefiles-nextupdate/executions"@,
                    Endpoint::ExecutionsIdGet => route.method == Method::Get && route.path@
                        == "/apps/sovd2uds/bulk-data/runtimefiles-nextupdate/executions/{id}"@,
                    Endpoint::ExecutionsPost => route.method == Method::Post && (route.path@
                        == "/apps/sovd2uds/bulk-data/runtimefiles-nextupdate/executions"@
                        || route.path@
                        == "/apps/sovd2uds/operations/diagnostic-database-update"@),
                }
            },
        forall|i: int|
            0 <= i < r@.len() ==> {
                let route = #[trigger] r@[i];
                route.upload_limited <==> route.endpoint == Endpoint::NextupdateGet
                    || route.endpoint == Endpoint::NextupdatePost
            },
        forall|endpoint: Endpoint|
            #![trigger endpoint.changes_something()]
            exists|i: int| 0 <= i < r@.len() && (#[trigger] r@[i]).endpoint == endpoint,
{
    let mut r: Vec<Route> = Vec::new();
    r.push(route(CURRENT_ROUTE, Method::Get, Endpoint::CurrentGet));
    r.push(limited(route(NEXTUPDATE_ROUTE, Method::Get, Endpoint::NextupdateGet)));
    r.push(limited(route(NEXTUPDATE_ROUTE, Method::Post, Endpoint::NextupdatePost)));
    r.push(route(NEXTUPDATE_ROUTE, Method::Delete, Endpoint::NextupdateDelete));
    r.push(route(NEXTUPDATE_ID_ROUTE, Method::Delete, Endpoint::NextupdateIdDelete));
    r.push(route(BACKUP_ROUTE, Method::Get, Endpoint::BackupGet));
    r.push(route(BACKUP_ROUTE, Method::Delete, Endpoint::BackupDelete));
    r.push(route(EXECUTIONS_ROUTE, Method::Get, Endpoint::ExecutionsGet));
    r.push(route(EXECUTIONS_ROUTE, Method::Post, Endpoint::ExecutionsPost));
    r.push(route(EXECUTIONS_ID_ROUTE, Method::Get, Endpoint::ExecutionsIdGet));
    r.push(route(OPERATION_ROUTE, Method::Post, Endpoint::ExecutionsPost));
    proof {
        assert(r@ =~= all_routes());
        lemma_routes_of_endpoints();
        assert forall|endpoint: Endpoint|
            #![trigger endpoint.changes_something()]
            exists|i: int| 0 <= i < r@.len() && (#[trigger] r@[i]).endpoint == endpoint by {
            lemma_every_endpoint_is_mounted(endpoint);
            let i = choose|i: int|
                0 <= i < all_routes().len() && (#[trigger] all_routes()[i]).endpoint == endpoint;
            assert(r@[i].endpoint == endpoint);
        }
    }
    r
}

/// Requests that are served while an update runs: those on a path that starts with
/// `prefix`, with one of the methods.
#[derive(Debug)]
pub struct ExemptRoute {
    pub prefix: String,
    pub methods: Vec<Method>,
}

impl ExemptRoute {
    /// The route serves requests with this method on this path.
    pub open spec fn covers(self, method: Method, path: Seq<char>) -> bool {
        self.methods@.contains(method) && self.prefix@.is_prefix_of(path)
    }
}

/// The routes that stay open while an update runs: reading the executions.
pub fn update_exempt_routes(vehicle_base_uri_path: &BaseUriPath) -> (r: Vec<ExemptRoute>)
    ensures
        r@.len() == 1,
        r@[0].prefix@ == vehicle_base_uri_path@ + EXECUTIONS_ROUTE@,
        r@[0].methods@ == seq![Method::Get],
        r@[0].prefix@ == vehicle_base_uri_path@
            + "/apps/sovd2uds/bulk-data/runtimefiles-nextupdate/executions"@,
{
    let mut methods: Vec<Method> = Vec::new();
    methods.push(Method::Get);
    let mut r: Vec<ExemptRoute> = Vec::new();
    r.push(ExemptRoute { prefix: vehicle_base_uri_path.join(EXECUTIONS_ROUTE), methods });
    r
}

/// No two routes have the same path and method.
pub proof fn lemma_routes_do_not_overlap(i: int, j: int)
    requires
        0 <= i < j < all_routes().len(),
    ensures
        all_routes()[i].path@ != all_routes()[j].path@ || all_routes()[i].method
            != all_routes()[j].method,
{
    lemma_path_lengths();
}

proof fn lemma_path_lengths()
    ensures
        CURRENT_ROUTE@.len() == 45,
        NEXTUPDATE_ROUTE@.len() == 48,
        NEXTUPDATE_ID_ROUTE@.len() == 53,
        BACKUP_ROUTE@.len() == 44,
        EXECUTIONS_ROUTE@.len() == 59,
        EXECUTIONS_ID_ROUTE@.len() == 64,
        OPERATION_ROUTE@.len() == 52,
{
    reveal_strlit("/apps/sovd2uds/bulk-data/runtimefiles-current");
    reveal_strlit("/apps/sovd2uds/bulk-data/runtimefiles-nextupdate");
    reveal_strlit("/apps/sovd2uds/bulk-data/runtimefiles-nextupdate/{id}");
    reveal_strlit("/apps/sovd2uds/bulk-data/runtimefiles-backup");
    reveal_strlit("/apps/sovd2uds/bulk-data/runtimefiles-nextupdate/executions");
    reveal_strlit("/apps/sovd2uds/bulk-data/runtimefiles-nextupdate/executions/{id}");
    reveal_strlit("/apps/sovd2uds/operations/diagnostic-database-update");
}

/// The routes of endpoints that change something are those for other methods than
/// `Get`.
pub proof fn lemma_get_routes_change_nothing(i: int)
    requires
        0 <= i < all_routes().len(),
    ensures
        all_routes()[i].endpoint.changes_something() <==> all_routes()[i].method != Method::Get,
{
}

/// While an update runs, the routes that read the executions stay open, and no other
/// route does.
pub proof fn lemma_executions_stay_readable(exempt: ExemptRoute, base: Seq<char>, i: int)
    requires
        exempt.prefix@ == base + EXECUTIONS_ROUTE@,
        exempt.methods@ == seq![Method::Get],
        0 <= i < all_routes().len(),
    ensures
        exempt.covers(all_routes()[i].method, base + all_routes()[i].path@) <==> (
        all_routes()[i].endpoint == Endpoint::ExecutionsGet || all_routes()[i].endpoint
            == Endpoint::ExecutionsIdGet),
{
    lemma_path_lengths();
    lemma_executions_id_below_executions();
    assert(exempt.methods@[0] == Method::Get);
    assert((base + EXECUTIONS_ROUTE@).is_prefix_of(base + EXECUTIONS_ROUTE@));
    assert((base + EXECUTIONS_ROUTE@).is_prefix_of(base + EXECUTIONS_ID_ROUTE@));
}

proof fn lemma_executions_id_below_executions()
    ensures
        EXECUTIONS_ROUTE@.is_prefix_of(EXECUTIONS_ID_ROUTE@),
{
    reveal_strlit("/apps/sovd2uds/bulk-data/runtimefiles-nextupdate/executions");
    reveal_strlit("/apps/sovd2uds/bulk-data/runtimefiles-nextupdate/executions/{id}");
    assert(EXECUTIONS_ROUTE@ =~= EXECUTIONS_ID_ROUTE@.subrange(
        0,
        EXECUTIONS_ROUTE@.len() as int,
    ));
}

/// Every route is written in lower case, so that it is found under the path that a
/// request URI is rewritten to.
pub proof fn lemma_routes_are_lowercase(i: int, k: int)
    requires
        0 <= i < all_routes().len(),
        0 <= k < all_routes()[i].path@.len(),
    ensures
        ascii_lower(all_routes()[i].path@[k]) == all_routes()[i].path@[k],
{
    reveal_strlit("/apps/sovd2uds/bulk-data/runtimefiles-current");
    reveal_strlit("/apps/sovd2uds/bulk-data/runtimefiles-nextupdate");
    reveal_strlit("/apps/sovd2uds/bulk-data/runtimefiles-nextupdate/{id}");
    reveal_strlit("/apps/sovd2uds/bulk-data/runtimefiles-backup");
    reveal_strlit("/apps/sovd2uds/bulk-data/runtimefiles-nextupdate/executions");
    reveal_strlit("/apps/sovd2uds/bulk-data/runtimefiles-nextupdate/executions/{id}");
    reveal_strlit("/apps/sovd2uds/operations/diagnostic-database-update");
}

} // verus!
