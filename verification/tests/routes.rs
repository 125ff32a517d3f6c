use collab::fetch::Method;
use collab::routes::{Endpoint, public_routes, routes};

#[test]
fn the_api_token_protects_the_server_interface() {
    let table = routes();
    let expected = [
        (Method::Post, "/users/:id/access_tokens", Endpoint::CreateAccessToken),
        (Method::Get, "/rpc_server_snapshot", Endpoint::RpcServerSnapshot),
        (Method::Post, "/internal/users/impersonate", Endpoint::ImpersonateUser),
    ];
    assert!(table.requires_api_token);
    assert_eq!(table.routes.len(), expected.len());
    for (route, (method, path, endpoint)) in table.routes.iter().zip(expected) {
        assert_eq!((route.method, route.path, route.endpoint), (method, path, endpoint));
    }
}

#[test]
fn browsers_sign_in_without_the_api_token() {
    let table = public_routes();
    let expected = [
        ("/native_app_signin", Endpoint::NativeAppSignin),
        ("/native_app_signin_succeeded", Endpoint::NativeAppSigninSucceeded),
        ("/auth/github_callback", Endpoint::GithubCallback),
        ("/auth/affine_callback", Endpoint::AffineCallback),
    ];
    assert!(!table.requires_api_token);
    assert_eq!(table.routes.len(), expected.len());
    for (route, (path, endpoint)) in table.routes.iter().zip(expected) {
        assert_eq!((route.method, route.path, route.endpoint), (Method::Get, path, endpoint));
    }
}

#[test]
fn no_two_routes_are_the_same() {
    let mut all = routes().routes;
    all.extend(public_routes().routes);
    for i in 0..all.len() {
        for j in 0..i {
            assert_ne!(all[i].path, all[j].path);
            assert_ne!(all[i].endpoint, all[j].endpoint);
        }
    }
}
