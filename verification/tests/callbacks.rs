use collab::accounts::{NewAccessToken, UserId};
use collab::affine::{AffineCallbackParams, AffineExchangeResponse, affine_callback};
use collab::config::Config;
use collab::error::{Error, StatusCode};
use collab::fetch::{Body, HttpRequest, Method};
use collab::github::{
    GithubAccount, GithubCallbackParams, GithubTokenResponse, GithubUserInfo, github_callback,
};
use collab::handoff::{AwaitingEncryption, AwaitingUser, RedirectKind};
use collab::native_app::NativeApp;

fn config() -> Config {
    Config {
        api_token: String::from("secret"),
        http_port: 8080,
        self_url: None,
        github_client_id: Some(String::from("id")),
        github_client_secret: Some(String::from("hush")),
        affine_url: Some(String::from("http://mock-affine:3010")),
        affine_public_url: Some(String::from("http://localhost:3010")),
    }
}

fn refused<T>(result: Result<T, Error>) -> (StatusCode, String) {
    match result {
        Err(Error::Http(status, message)) => (status, message),
        _ => panic!("no refusal"),
    }
}

fn failed<T>(result: Result<T, Error>) -> String {
    match result {
        Err(Error::Internal(cause)) => cause,
        _ => panic!("no failure"),
    }
}

fn github(state: &str, config: &Config) -> Result<(collab::github::AwaitingGithubToken, HttpRequest), Error> {
    let params = GithubCallbackParams { code: String::from("c0de"), state: String::from(state) };
    github_callback(params, config)
}

fn affine(state: &str, config: &Config) -> Result<(collab::affine::AwaitingAffineUser, HttpRequest), Error> {
    let params = AffineCallbackParams { code: String::from("c0de"), state: String::from(state) };
    affine_callback(params, config)
}

fn pairs(list: &[(String, String)]) -> Vec<(&str, &str)> {
    list.iter().map(|(name, value)| (name.as_str(), value.as_str())).collect()
}

fn info(created_at: &str) -> GithubUserInfo {
    GithubUserInfo {
        id: 583231,
        login: String::from("octocat"),
        email: None,
        name: Some(String::from("The Octocat")),
        created_at: String::from(created_at),
    }
}

fn account(created_at: &str) -> GithubAccount {
    let (request, _) = github("80:key", &config()).unwrap_or_else(|_| panic!());
    let token = GithubTokenResponse { access_token: String::from("gho") };
    let (request, _) = request.token_received(Ok(token)).unwrap_or_else(|_| panic!());
    let (_, account) = request.user_received(Ok(info(created_at))).unwrap_or_else(|_| panic!());
    account
}

#[test]
fn a_state_without_a_colon_is_invalid() {
    let expected = (StatusCode::BadRequest, String::from("invalid state"));
    let mut bare = config();
    bare.github_client_id = None;
    bare.affine_url = None;
    for state in ["", "80", "key"] {
        assert_eq!(refused(github(state, &config())), expected);
        assert_eq!(refused(affine(state, &config())), expected);
        assert_eq!(refused(github(state, &bare)), expected);
        assert_eq!(refused(affine(state, &bare)), expected);
    }
}

#[test]
fn a_state_without_a_port_is_invalid() {
    let expected = (StatusCode::BadRequest, String::from("invalid port in state"));
    for state in [":", "x:key", "65536:key", "-1:key", " 80:key"] {
        assert_eq!(refused(github(state, &config())), expected);
        assert_eq!(refused(affine(state, &config())), expected);
    }
}

#[test]
fn github_has_to_be_configured() {
    let expected =
        (StatusCode::InternalServerError, String::from("GitHub OAuth not configured"));
    let mut without_id = config();
    without_id.github_client_id = None;
    assert_eq!(refused(github("80:key", &without_id)), expected);
    let mut without_secret = config();
    without_secret.github_client_secret = None;
    assert_eq!(refused(github("80:key", &without_secret)), expected);
    let mut empty = config();
    empty.github_client_id = Some(String::new());
    assert!(github("80:key", &empty).is_ok());
}

#[test]
fn affine_has_to_be_configured() {
    let expected =
        (StatusCode::InternalServerError, String::from("AFFiNE auth not configured"));
    let mut config = config();
    config.affine_url = None;
    assert_eq!(refused(affine("80:key", &config)), expected);
}

#[test]
fn github_is_asked_for_a_token_and_then_for_the_user() {
    let (request, fetch) = github("80:key", &config()).unwrap_or_else(|_| panic!());
    assert_eq!(fetch.method, Method::Post);
    assert_eq!(fetch.url, "https://github.com/login/oauth/access_token");
    assert_eq!(pairs(&fetch.headers), [("Accept", "application/json")]);
    match &fetch.body {
        Body::Form(fields) => assert_eq!(
            pairs(fields),
            [("client_id", "id"), ("client_secret", "hush"), ("code", "c0de")]
        ),
        _ => panic!("not a form"),
    }
    assert!(!fetch.fails_on_error_status);

    let token = GithubTokenResponse { access_token: String::from("gho") };
    let (_, fetch) = request.token_received(Ok(token)).unwrap_or_else(|_| panic!());
    assert_eq!(fetch.method, Method::Get);
    assert_eq!(fetch.url, "https://api.github.com/user");
    assert_eq!(
        pairs(&fetch.headers),
        [("Authorization", "Bearer gho"), ("User-Agent", "zed-collab")]
    );
    assert!(matches!(fetch.body, Body::Empty));
    assert!(!fetch.fails_on_error_status);
}

#[test]
fn the_github_account_is_stored() {
    let account = account("2011-01-25T18:44:36Z");
    assert_eq!(account.login, "octocat");
    assert_eq!(account.id, 583231);
    assert_eq!(account.email, None);
    assert_eq!(account.name, Some(String::from("The Octocat")));
    assert_eq!(account.created_at.seconds, 1295981076);
    assert_eq!(account.created_at.nanos, 0);
    assert_eq!(account.initial_channel_id, None);
}

#[test]
fn the_age_of_an_account_is_taken_to_utc() {
    let created_at = account("1996-12-19T16:39:57.25-08:00").created_at;
    assert_eq!(created_at.seconds, 851042397);
    assert_eq!(created_at.nanos, 250_000_000);
    assert_eq!(account("1969-12-31T23:59:59Z").created_at.seconds, -1);
}

#[test]
fn an_account_of_unknown_age_is_new() {
    for created_at in ["", "yesterday", "2011-01-25", "2011-13-25T18:44:36Z"] {
        let before = chrono::Utc::now().timestamp();
        let seconds = account(created_at).created_at.seconds;
        let after = chrono::Utc::now().timestamp();
        assert!(before <= seconds && seconds <= after, "{created_at:?}");
    }
}

#[test]
fn affine_is_asked_where_the_server_reaches_it() {
    let (request, fetch) = affine("80:key", &config()).unwrap_or_else(|_| panic!());
    assert_eq!(fetch.method, Method::Post);
    assert_eq!(fetch.url, "http://mock-affine:3010/api/auth/open-app/exchange");
    assert!(fetch.headers.is_empty());
    match &fetch.body {
        Body::Json(fields) => assert_eq!(pairs(fields), [("code", "c0de")]),
        _ => panic!("not JSON"),
    }
    assert!(fetch.fails_on_error_status);

    let user = AffineExchangeResponse {
        id: String::from("u1"),
        email: String::from("a@b.c"),
        name: None,
        avatar_url: Some(String::from("http://avatar")),
    };
    let (_, stored) = request.user_received(Ok(user)).unwrap_or_else(|_| panic!());
    assert_eq!(stored.id, "u1");
    assert_eq!(stored.email, "a@b.c");
    assert_eq!(stored.name, None);
    assert_eq!(stored.avatar_url, Some(String::from("http://avatar")));
}

#[test]
fn a_failed_fetch_is_an_internal_error() {
    let (request, _) = github("80:key", &config()).unwrap_or_else(|_| panic!());
    assert_eq!(failed(request.token_received(Err(String::from("refused")))), "refused");
    let (request, _) = github("80:key", &config()).unwrap_or_else(|_| panic!());
    let token = GithubTokenResponse { access_token: String::new() };
    let (request, _) = request.token_received(Ok(token)).unwrap_or_else(|_| panic!());
    assert_eq!(failed(request.user_received(Err(String::from("no json")))), "no json");
    let (request, _) = affine("80:key", &config()).unwrap_or_else(|_| panic!());
    assert_eq!(failed(request.user_received(Err(String::from("503")))), "503");
}

#[test]
fn a_sign_in_ends_at_the_app_that_started_it() {
    let app = NativeApp { port: 4000, public_key: String::from("pk:1") };
    let (request, _) = affine(&app.to_state(), &config()).unwrap_or_else(|_| panic!());
    let user = AffineExchangeResponse {
        id: String::from("u1"),
        email: String::from("a@b.c"),
        name: None,
        avatar_url: None,
    };
    let (request, _) = request.user_received(Ok(user)).unwrap_or_else(|_| panic!());
    let (request, order) = request.user_stored(Ok(UserId(17))).unwrap_or_else(|_| panic!());
    assert_eq!(order, NewAccessToken { user_id: UserId(17), impersonated_user_id: None });
    let (request, encryption) =
        request.token_created(Ok(String::from("tok"))).unwrap_or_else(|_| panic!());
    assert_eq!(encryption.access_token, "tok");
    assert_eq!(encryption.public_key, "pk:1");
    let redirect =
        request.token_encrypted(Ok(String::from("a+b/c=="))).unwrap_or_else(|_| panic!());
    assert_eq!(redirect.kind, RedirectKind::Temporary);
    assert_eq!(redirect.location, "http://127.0.0.1:4000/?user_id=17&access_token=a%2Bb%2Fc%3D%3D");
}

#[test]
fn every_character_of_a_token_can_be_sent() {
    let encrypted = "\u{0}\n\"<é世😀~";
    let request = AwaitingEncryption { port: 0, user_id: UserId(-3) };
    let redirect = request.token_encrypted(Ok(String::from(encrypted))).unwrap_or_else(|_| panic!());
    let location = redirect.location;
    assert_eq!(
        location,
        "http://127.0.0.1:0/?user_id=-3&access_token=%00%0A%22%3C%C3%A9%E4%B8%96%F0%9F%98%80~"
    );
    assert!(axum::http::HeaderValue::from_str(&location).is_ok());
    let token = &location["http://127.0.0.1:0/?user_id=-3&access_token=".len()..];
    assert_eq!(urlencoding::decode(token).ok().as_deref(), Some(encrypted));
}

#[test]
fn a_failed_call_ends_the_sign_in() {
    let app = || NativeApp { port: 1, public_key: String::new() };
    let failure = || Error::Internal(String::from("down"));
    assert_eq!(failed(AwaitingUser { app: app() }.user_stored(Err(failure()))), "down");
    let refusal = Error::Http(StatusCode::NotFound, String::from("gone"));
    let (request, _) =
        AwaitingUser { app: app() }.user_stored(Ok(UserId(1))).unwrap_or_else(|_| panic!());
    assert_eq!(
        refused(request.token_created(Err(refusal))),
        (StatusCode::NotFound, String::from("gone"))
    );
    let request = AwaitingEncryption { port: 1, user_id: UserId(1) };
    assert_eq!(failed(request.token_encrypted(Err(failure()))), "down");
}
