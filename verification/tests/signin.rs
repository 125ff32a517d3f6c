use collab::config::Config;
use collab::native_app::NativeApp;
use collab::signin::{
    NativeAppSigninParams, native_app_signin, native_app_signin_succeeded,
};

fn config() -> Config {
    Config {
        api_token: String::from("secret"),
        http_port: 8080,
        self_url: None,
        github_client_id: None,
        github_client_secret: None,
        affine_url: None,
        affine_public_url: None,
    }
}

fn text(value: &str) -> Option<String> {
    Some(String::from(value))
}

fn page(config: &Config, port: Option<u16>, key: Option<&str>) -> String {
    native_app_signin(
        NativeAppSigninParams {
            native_app_port: port,
            native_app_public_key: key.map(String::from),
        },
        config,
    )
}

const HEAD: &str = r#"<!DOCTYPE html>
<html>
<head>
    <title>Sign in to Zed</title>
    <style>
        body {
            font-family: -apple-system, BlinkMacSystemFont, 'Segoe UI', Roboto, sans-serif;
            display: flex;
            justify-content: center;
            align-items: center;
            min-height: 100vh;
            margin: 0;
            background: #1e1e2e;
            color: #cdd6f4;
        }
        .container {
            text-align: center;
            padding: 2rem;
        }
        h1 {
            margin-bottom: 2rem;
            font-size: 1.5rem;
        }
        .btn {
            display: inline-block;
            padding: 12px 24px;
            margin: 8px;
            border-radius: 8px;
            text-decoration: none;
            font-size: 1rem;
            font-weight: 500;
            transition: opacity 0.2s;
        }
        .btn:hover {
            opacity: 0.9;
        }
        .btn-github {
            background: #333;
            color: #fff;
        }
        .btn-affine {
            background: #1e96eb;
            color: #fff;
        }
    </style>
</head>
<body>
    <div class="container">
        <h1>Sign in to Zed</h1>
        "#;

const TAIL: &str = "\n    </div>\n</body>\n</html>";

#[test]
fn without_providers_the_page_has_no_links() {
    let expected = format!("{HEAD}\n        {TAIL}");
    assert_eq!(page(&config(), Some(1), Some("k")), expected);
    let mut empty = config();
    empty.github_client_id = text("");
    empty.affine_url = text("");
    empty.affine_public_url = text("http://localhost:3010");
    assert_eq!(page(&empty, Some(1), Some("k")), expected);
}

#[test]
fn the_github_link_carries_the_app() {
    let mut config = config();
    config.github_client_id = text("Iv1.x");
    let expected = format!(
        r#"{HEAD}<a href="https://github.com/login/oauth/authorize?client_id=Iv1.x&redirect_uri=http%3A%2F%2Flocalhost%3A8080%2Fauth%2Fgithub_callback&state=4000%3Aab%2B%2F%3D%20%C3%BC" class="btn btn-github">Sign in with GitHub</a>
        {TAIL}"#
    );
    assert_eq!(page(&config, Some(4000), Some("ab+/= ü")), expected);
}

#[test]
fn the_affine_link_carries_the_app_in_its_redirect() {
    let mut config = config();
    config.affine_url = text("http://mock-affine:3010");
    config.self_url = text("https://collab.example");
    let expected = format!(
        r#"{HEAD}
        <a href="http://mock-affine:3010/sign-in?redirect_uri=https%3A%2F%2Fcollab.example%2Fauth%2Faffine_callback%3Fstate%3D0%253A" class="btn btn-affine">Sign in with AFFiNE</a>{TAIL}"#
    );
    assert_eq!(page(&config, None, None), expected);
}

#[test]
fn browsers_are_sent_to_the_public_address_of_affine() {
    let mut config = config();
    config.affine_url = text("http://mock-affine:3010");
    config.affine_public_url = text("http://localhost:3010");
    let html = page(&config, None, None);
    assert!(html.contains(r#"<a href="http://localhost:3010/sign-in?redirect_uri="#));
    assert!(!html.contains("mock-affine"));
}

#[test]
fn both_links_are_shown() {
    let mut config = config();
    config.github_client_id = text("id");
    config.affine_url = text("http://affine");
    let html = page(&config, Some(65535), Some("\"><script>&'"));
    assert!(html.contains("Sign in with GitHub</a>\n        <a href=\"http://affine/sign-in?"));
    assert!(html.contains("state=65535%3A%22%3E%3Cscript%3E%26%27\""));
    assert!(!html.contains("<script>"));
}

#[test]
fn the_last_page_tells_that_the_sign_in_is_done() {
    let html = native_app_signin_succeeded();
    assert_eq!(
        html,
        r#"<!DOCTYPE html>
<html>
<head><title>Sign-in Successful</title>
<style>
    body {
        font-family: -apple-system, BlinkMacSystemFont, 'Segoe UI', Roboto, sans-serif;
        display: flex;
        justify-content: center;
        align-items: center;
        min-height: 100vh;
        margin: 0;
        background: #1e1e2e;
        color: #cdd6f4;
    }
</style>
</head>
<body>
    <h1>You can close this window and return to Zed.</h1>
</body>
</html>"#
    );
}

#[test]
fn the_server_is_at_its_local_port_by_default() {
    let mut config = config();
    assert_eq!(config.self_url(), "http://localhost:8080");
    config.self_url = text("https://collab.example");
    assert_eq!(config.self_url(), "https://collab.example");
}

#[test]
fn an_app_is_read_back_from_its_state() {
    let long = "k".repeat(10_000);
    for (port, key) in [(0, ""), (80, "key"), (65535, "a:b:c"), (1, ":"), (7, "é 世界"), (9, long.as_str())] {
        let app = NativeApp { port, public_key: String::from(key) };
        let state = app.to_state();
        assert_eq!(state, format!("{port}:{key}"));
        let read = NativeApp::from_state(&state).unwrap_or_else(|_| panic!("{state}"));
        assert_eq!(read.port, port);
        assert_eq!(read.public_key, key);
    }
}
