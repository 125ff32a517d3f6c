//! Which endpoints the server has, where they are, and which of them the API token protects.

use crate::fetch::Method;
use vstd::prelude::*;

verus! {

/// Where GitHub sends the browser back to.
pub const GITHUB_CALLBACK_PATH: &'static str = "/auth/github_callback";

/// Where AFFiNE sends the browser back to.
pub const AFFINE_CALLBACK_PATH: &'static str = "/auth/affine_callback";

/// What a request is for.
#[derive(Debug, Clone, Copy, PartialEq, Eq, Structural)]
pub enum Endpoint {
    CreateAccessToken,
    RpcServerSnapshot,
    ImpersonateUser,
    NativeAppSignin,
    NativeAppSigninSucceeded,
    GithubCallback,
    AffineCallback,
}

/// The place of an endpoint.
pub struct Route {
    pub method: Method,
    /// The path, in which a part that starts with a colon stands for any text.
    pub path: &'static str,
    pub endpoint: Endpoint,
}

pub struct RouteView {
    pub method: Method,
    pub path: Seq<char>,
    pub endpoint: Endpoint,
}

impl DeepView for Route {
    type V = RouteView;

    open spec fn deep_view(&self) -> RouteView {
        RouteView { method: self.method, path: self.path@, endpoint: self.endpoint }
    }
}

/// Endpoints that stand behind the same check.
pub struct RouteTable {
    /// Whether requests are let through only with the API token, those for a path that the table
    /// does not hold too.
    pub requires_api_token: bool,
    pub routes: Vec<Route>,
}

pub struct RouteTableView {
    pub requires_api_token: bool,
    pub routes: Seq<RouteView>,
}

impl DeepView for RouteTable {
    type V = RouteTableView;

    open spec fn deep_view(&self) -> RouteTableView {
        RouteTableView {
            requires_api_token: self.requires_api_token,
            routes: self.routes.deep_view(),
        }
    }
}

/// The routes that the API token protects.
pub open spec fn protected_routes() -> RouteTableView {
    RouteTableView {
        requires_api_token: true,
        routes: seq![
            RouteView {
                method: Method::Post,
                path: "/users/:id/access_tokens"@,
                endpoint: Endpoint::CreateAccessToken,
            },
            RouteView {
                method: Method::Get,
                path: "/rpc_server_snapshot"@,
                endpoint: Endpoint::RpcServerSnapshot,
            },
            RouteView {
                method: Method::Post,
                path: "/internal/users/impersonate"@,
                endpoint: Endpoint::ImpersonateUser,
            },
        ],
    }
}

/// The routes that a browser takes to sign in, which are open to everybody.
pub open spec fn signin_routes() -> RouteTableView {
    RouteTableView {
        requires_api_token: false,
        routes: seq![
            RouteView {
                method: Method::Get,
                path: "/native_app_signin"@,
                endpoint: Endpoint::NativeAppSignin,
            },
            RouteView {
                method: Method::Get,
                path: "/native_app_signin_succeeded"@,
                endpoint: Endpoint::NativeAppSigninSucceeded,
            },
            RouteView {
                method: Method::Get,
                path: GITHUB_CALLBACK_PATH@,
                endpoint: Endpoint::GithubCallback,
            },
            RouteView {
                method: Method::Get,
                path: AFFINE_CALLBACK_PATH@,
                endpoint: Endpoint::AffineCallback,
            },
        ],
    }
}

/// The routes that the API token protects.
pub fn routes() -> (table: RouteTable)
    ensures
        table.deep_view() == protected_routes(),
{
    let routes = vec![
        Route {
            method: Method::Post,
            path: "/users/:id/access_tokens",
            endpoint: Endpoint::CreateAccessToken,
        },
        Route {
            method: Method::Get,
            path: "/rpc_server_snapshot",
            endpoint: Endpoint::RpcServerSnapshot,
        },
        Route {
            method: Method::Post,
            path: "/internal/users/impersonate",
            endpoint: Endpoint::ImpersonateUser,
        },
    ];
    assert(routes.deep_view() =~= protected_routes().routes);
    RouteTable { requires_api_token: true, routes }
}

/// The routes that a browser takes to sign in.
pub fn public_routes() -> (table: RouteTable)
    ensures
        table.deep_view() == signin_routes(),
{
    let routes = vec![
        Route {
            method: Method::Get,
            path: "/native_app_signin",
            endpoint: Endpoint::NativeAppSignin,
        },
        Route {
            method: Method::Get,
            path: "/native_app_signin_succeeded",
            endpoint: Endpoint::NativeAppSigninSucceeded,
        },
        Route {
            method: Method::Get,
            path: GITHUB_CALLBACK_PATH,
            endpoint: Endpoint::GithubCallback,
        },
        Route {
            method: Method::Get,
            path: AFFINE_CALLBACK_PATH,
            endpoint: Endpoint::AffineCallback,
        },
    ];
    assert(routes.deep_view() =~= signin_routes().routes);
    RouteTable { requires_api_token: false, routes }
}

/// No two routes have the same path or the same endpoint, so that no request to a protected
/// endpoint can take an open route.
pub proof fn routes_are_distinct()
    ensures
        ({
            let all = protected_routes().routes + signin_routes().routes;
            forall|i: int, j: int|
                0 <= i < j < all.len() ==> (#[trigger] all[i]).path != (#[trigger] all[j]).path
                    && all[i].endpoint != all[j].endpoint
        }),
{
    reveal_strlit("/users/:id/access_tokens");
    reveal_strlit("/rpc_server_snapshot");
    reveal_strlit("/internal/users/impersonate");
    reveal_strlit("/native_app_signin");
    reveal_strlit("/native_app_signin_succeeded");
    reveal_strlit("/auth/github_callback");
    reveal_strlit("/auth/affine_callback");
    assert("/users/:id/access_tokens"@.len() == 24);
    assert("/rpc_server_snapshot"@.len() == 20);
    assert("/internal/users/impersonate"@.len() == 27);
    assert("/native_app_signin"@.len() == 18);
    assert("/native_app_signin_succeeded"@.len() == 28);
    assert(GITHUB_CALLBACK_PATH@.len() == 21);
    assert(AFFINE_CALLBACK_PATH@.len() == 21);
    assert(GITHUB_CALLBACK_PATH@[6] == 'g');
    assert(AFFINE_CALLBACK_PATH@[6] == 'a');
}

/// The API token is required to get an access token for a user of one's choice and to look inside
/// the server, and for no other endpoint.
pub proof fn endpoints_that_require_the_api_token(table: RouteTableView, route: RouteView)
    requires
        table == protected_routes() || table == signin_routes(),
        table.routes.contains(route),
    ensures
        table.requires_api_token <==> {
            ||| route.endpoint == Endpoint::CreateAccessToken
            ||| route.endpoint == Endpoint::RpcServerSnapshot
            ||| route.endpoint == Endpoint::ImpersonateUser
        },
{
}

} // verus!
