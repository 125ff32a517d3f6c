//! The pages that a browser sees while it signs the user of a native app in.

use crate::config::{Config, ConfigView, configured, is_configured};
use crate::error::ErrorView;
use crate::native_app::{
    NativeApp, NativeAppView, app_is_read_back_from_its_state, app_of_state,
};
use crate::routes::{
    AFFINE_CALLBACK_PATH, Endpoint, GITHUB_CALLBACK_PATH, RouteView, signin_routes,
};
use crate::text::decimal;
use crate::url::{
    encode, encoded_text_is_read_back, encoded_text_stands_for_the_text, query_value, stands_for,
    url_encoded,
};
use vstd::prelude::*;
use vstd::utf8::{decode_utf8, encode_utf8_decode_utf8};

verus! {

/// The sign-in page, up to its links.
pub const SIGNIN_PAGE_START: &'static str = r#"<!DOCTYPE html>
<html>
<head>
    <title>Sign in to Zed</title>
    <style>
        body {
            font-family: -apple-system, BlinkMacSystemFont, 'Segoe UI', Roboto, sans-serif;
            display: flex;
            justify-content: center;
            align-items: center;
            min-height: 100vh;
            margin: 0;
            background: #1e1e2e;
            color: #cdd6f4;
        }
        .container {
            text-align: center;
            padding: 2rem;
        }
        h1 {
            margin-bottom: 2rem;
            font-size: 1.5rem;
        }
        .btn {
            display: inline-block;
            padding: 12px 24px;
            margin: 8px;
            border-radius: 8px;
            text-decoration: none;
            font-size: 1rem;
            font-weight: 500;
            transition: opacity 0.2s;
        }
        .btn:hover {
            opacity: 0.9;
        }
        .btn-github {
            background: #333;
            color: #fff;
        }
        .btn-affine {
            background: #1e96eb;
            color: #fff;
        }
    </style>
</head>
<body>
    <div class="container">
        <h1>Sign in to Zed</h1>
        "#;

/// What stands between the links of the sign-in page.
pub const SIGNIN_PAGE_SEPARATOR: &'static str = "\n        ";

/// The rest of the sign-in page.
pub const SIGNIN_PAGE_END: &'static str = r#"
    </div>
</body>
</html>"#;

/// The page that ends a sign-in.
pub const SIGNED_IN_PAGE: &'static str = r#"<!DOCTYPE html>
<html>
<head><title>Sign-in Successful</title>
<style>
    body {
        font-family: -apple-system, BlinkMacSystemFont, 'Segoe UI', Roboto, sans-serif;
        display: flex;
        justify-content: center;
        align-items: center;
        min-height: 100vh;
        margin: 0;
        background: #1e1e2e;
        color: #cdd6f4;
    }
</style>
</head>
<body>
    <h1>You can close this window and return to Zed.</h1>
</body>
</html>"#;

/// What a native app asks for when it sends the user's browser to the sign-in page.
pub struct NativeAppSigninParams {
    pub native_app_port: Option<u16>,
    pub native_app_public_key: Option<String>,
}

pub struct NativeAppSigninParamsView {
    pub native_app_port: Option<u16>,
    pub native_app_public_key: Option<Seq<char>>,
}

impl DeepView for NativeAppSigninParams {
    type V = NativeAppSigninParamsView;

    open spec fn deep_view(&self) -> NativeAppSigninParamsView {
        NativeAppSigninParamsView {
            native_app_port: self.native_app_port,
            native_app_public_key: self.native_app_public_key.deep_view(),
        }
    }
}

impl NativeAppSigninParamsView {
    /// The app that asks. What it leaves out is port 0 and an empty key.
    pub open spec fn app(self) -> NativeAppView {
        NativeAppView {
            port: match self.native_app_port {
                Some(port) => port,
                None => 0,
            },
            public_key: match self.native_app_public_key {
                Some(key) => key,
                None => Seq::empty(),
            },
        }
    }
}

/// Where GitHub sends the browser back to.
pub open spec fn github_redirect_uri(config: ConfigView) -> Seq<char> {
    config.public_url() + GITHUB_CALLBACK_PATH@
}

/// Where AFFiNE sends the browser back to.
pub open spec fn affine_redirect_uri(config: ConfigView, app: NativeAppView) -> Seq<char> {
    config.public_url() + AFFINE_CALLBACK_PATH@ + "?state="@ + url_encoded(app.state())
}

/// The address at which GitHub asks the user to sign in.
pub open spec fn github_signin_url(
    config: ConfigView,
    client_id: Seq<char>,
    app: NativeAppView,
) -> Seq<char> {
    "https://github.com/login/oauth/authorize?client_id="@ + client_id + "&redirect_uri="@
        + url_encoded(github_redirect_uri(config)) + "&state="@ + url_encoded(app.state())
}

/// The address at which AFFiNE asks the user to sign in.
pub open spec fn affine_signin_url(config: ConfigView, app: NativeAppView) -> Seq<char> {
    config.affine_browser_url() + "/sign-in?redirect_uri="@ + url_encoded(
        affine_redirect_uri(config, app),
    )
}

/// The sign-in page's link to GitHub, which is there where GitHub is configured.
pub open spec fn github_button(config: ConfigView, app: NativeAppView) -> Seq<char> {
    match config.github_client_id {
        Some(client_id) if client_id.len() > 0 => r#"<a href=""#@ + github_signin_url(
            config,
            client_id,
            app,
        ) + r#"" class="btn btn-github">Sign in with GitHub</a>"#@,
        _ => Seq::empty(),
    }
}

/// The sign-in page's link to AFFiNE, which is there where AFFiNE is configured.
pub open spec fn affine_button(config: ConfigView, app: NativeAppView) -> Seq<char> {
    if is_configured(config.affine_url) {
        r#"<a href=""#@ + affine_signin_url(config, app)
            + r#"" class="btn btn-affine">Sign in with AFFiNE</a>"#@
    } else {
        Seq::empty()
    }
}

/// The sign-in page for a native app.
pub open spec fn signin_page(config: ConfigView, app: NativeAppView) -> Seq<char> {
    SIGNIN_PAGE_START@ + github_button(config, app) + SIGNIN_PAGE_SEPARATOR@ + affine_button(
        config,
        app,
    ) + SIGNIN_PAGE_END@
}

/// The page on which the user chooses who is to say who they are: a link for each identity
/// provider that is configured.
pub fn native_app_signin(params: NativeAppSigninParams, config: &Config) -> (html: String)
    ensures
        html@ == signin_page(config.deep_view(), params.deep_view().app()),
        params.native_app_port matches Some(port) ==> params.deep_view().app().port == port,
        params.native_app_port is None ==> params.deep_view().app().port == 0,
        params.native_app_public_key matches Some(key) ==> params.deep_view().app().public_key
            == key@,
        params.native_app_public_key is None ==> params.deep_view().app().public_key.len() == 0,
{
    let port: u16 = match params.native_app_port {
        Some(port) => port,
        None => 0,
    };
    let public_key = match params.native_app_public_key {
        Some(key) => key,
        None => String::new(),
    };
    let app = NativeApp { port, public_key };
    let mut html = SIGNIN_PAGE_START.to_owned();
    append_github_button(&mut html, config, &app);
    html.append(SIGNIN_PAGE_SEPARATOR);
    append_affine_button(&mut html, config, &app);
    html.append(SIGNIN_PAGE_END);
    html
}

fn append_github_button(html: &mut String, config: &Config, app: &NativeApp)
    ensures
        final(html)@ == old(html)@ + github_button(config.deep_view(), app.deep_view()),
{
    if let Some(client_id) = &config.github_client_id {
        if configured(&config.github_client_id) {
            let mut redirect_uri = config.self_url();
            redirect_uri.append(GITHUB_CALLBACK_PATH);
            html.append(r#"<a href=""#);
            html.append("https://github.com/login/oauth/authorize?client_id=");
            html.append(client_id.as_str());
            html.append("&redirect_uri=");
            html.append(encode(redirect_uri.as_str()).as_str());
            html.append("&state=");
            html.append(encode(app.to_state().as_str()).as_str());
            html.append(r#"" class="btn btn-github">Sign in with GitHub</a>"#);
        }
    }
}

fn append_affine_button(html: &mut String, config: &Config, app: &NativeApp)
    ensures
        final(html)@ == old(html)@ + affine_button(config.deep_view(), app.deep_view()),
{
    if configured(&config.affine_url) {
        let mut callback_url = config.self_url();
        callback_url.append(AFFINE_CALLBACK_PATH);
        callback_url.append("?state=");
        callback_url.append(encode(app.to_state().as_str()).as_str());
        html.append(r#"<a href=""#);
        html.append(config.affine_browser_url().as_str());
        html.append("/sign-in?redirect_uri=");
        html.append(encode(callback_url.as_str()).as_str());
        html.append(r#"" class="btn btn-affine">Sign in with AFFiNE</a>"#);
    }
}

/// The page that tells the user that the sign-in is done.
pub fn native_app_signin_succeeded() -> (html: &'static str)
    ensures
        html@ == SIGNED_IN_PAGE@,
{
    SIGNED_IN_PAGE
}

/// The page offers an identity provider exactly where it is configured; a setting that is empty
/// counts as none.
pub proof fn a_link_is_shown_exactly_for_a_configured_provider(
    config: ConfigView,
    app: NativeAppView,
)
    ensures
        github_button(config, app).len() > 0 <==> is_configured(config.github_client_id),
        affine_button(config, app).len() > 0 <==> is_configured(config.affine_url),
{
    reveal_strlit(r#"<a href=""#);
}

/// Where no provider is configured the page is the same for everybody, whatever else is set.
pub proof fn without_a_provider_the_page_has_no_link(config: ConfigView, app: NativeAppView)
    requires
        !is_configured(config.github_client_id),
        !is_configured(config.affine_url),
    ensures
        signin_page(config, app) == SIGNIN_PAGE_START@ + SIGNIN_PAGE_SEPARATOR@ + SIGNIN_PAGE_END@,
{
    assert(signin_page(config, app) =~= SIGNIN_PAGE_START@ + SIGNIN_PAGE_SEPARATOR@
        + SIGNIN_PAGE_END@);
}

/// The browser is sent to AFFiNE at `affine_public_url`, or, where that is not set, at
/// `affine_url`.
pub proof fn the_affine_link_uses_the_browser_url(config: ConfigView, app: NativeAppView)
    ensures
        config.affine_public_url matches Some(url) ==> url.is_prefix_of(
            affine_signin_url(config, app),
        ),
        config.affine_public_url is None ==> (config.affine_url matches Some(url)
            ==> url.is_prefix_of(affine_signin_url(config, app))),
{
    let url = affine_signin_url(config, app);
    assert(url.subrange(0, config.affine_browser_url().len() as int)
        =~= config.affine_browser_url());
}

/// The providers send the browser back to this server, to callbacks that are open to everybody.
pub proof fn browsers_come_back_to_open_routes(config: ConfigView, app: NativeAppView)
    ensures
        !signin_routes().requires_api_token,
        exists|route: RouteView|
            {
                &&& #[trigger] signin_routes().routes.contains(route)
                &&& route.endpoint == Endpoint::GithubCallback
                &&& github_redirect_uri(config) == config.public_url() + route.path
            },
        exists|route: RouteView|
            {
                &&& #[trigger] signin_routes().routes.contains(route)
                &&& route.endpoint == Endpoint::AffineCallback
                &&& affine_redirect_uri(config, app) == config.public_url() + route.path
                    + "?state="@ + url_encoded(app.state())
            },
{
    assert(signin_routes().routes.contains(signin_routes().routes[2]));
    assert(signin_routes().routes.contains(signin_routes().routes[3]));
}

/// The app that a callback reads from the `state` in its address is the one for which the sign-in
/// page was made, whatever its port and its public key are.
pub proof fn the_callback_reads_the_app_of_the_page(app: NativeAppView)
    ensures
        app_of_state(decode_utf8(query_value(url_encoded(app.state())))) == Ok::<
            NativeAppView,
            ErrorView,
        >(app),
{
    encoded_text_is_read_back(app.state());
    encode_utf8_decode_utf8(app.state());
    app_is_read_back_from_its_state(app);
}

/// The address to which a provider is asked to send the browser back is read by the provider as it
/// was written.
pub proof fn the_provider_reads_the_redirect_uri(config: ConfigView, app: NativeAppView)
    ensures
        decode_utf8(query_value(url_encoded(github_redirect_uri(config)))) == github_redirect_uri(
            config,
        ),
        decode_utf8(query_value(url_encoded(affine_redirect_uri(config, app))))
            == affine_redirect_uri(config, app),
{
    encoded_text_is_read_back(github_redirect_uri(config));
    encode_utf8_decode_utf8(github_redirect_uri(config));
    encoded_text_is_read_back(affine_redirect_uri(config, app));
    encode_utf8_decode_utf8(affine_redirect_uri(config, app));
}

/// The app for which the page is made is the one that the browser was sent by.
pub proof fn the_page_is_for_the_app_that_asks(params: NativeAppSigninParamsView)
    ensures
        params.native_app_port matches Some(port) ==> params.app().port == port,
        params.native_app_port is None ==> params.app().port == 0,
        params.native_app_public_key matches Some(key) ==> params.app().public_key == key,
        params.native_app_public_key is None ==> params.app().public_key.len() == 0,
{
}

/// Whether `link` takes the browser to GitHub, which is told who asks and is to send the browser
/// back to the callback of this server with a `state` that names `app`.
pub open spec fn leads_to_github(link: Seq<char>, config: ConfigView, app: NativeAppView) -> bool {
    exists|redirect_uri: Seq<char>, state: Seq<char>|
        {
            &&& #[trigger] stands_for(
                redirect_uri,
                config.public_url() + "/auth/github_callback"@,
            )
            &&& #[trigger] stands_for(state, decimal(app.port as nat) + seq![':'] + app.public_key)
            &&& app_of_state(decode_utf8(query_value(state))) == Ok::<NativeAppView, ErrorView>(app)
            &&& config.github_client_id matches Some(client_id)
            &&& link == r#"<a href=""#@ + "https://github.com/login/oauth/authorize?client_id="@
                + client_id + "&redirect_uri="@ + redirect_uri + "&state="@ + state
                + r#"" class="btn btn-github">Sign in with GitHub</a>"#@
        }
}

/// Whether `link` takes the browser to AFFiNE, at the address that is set for browsers or else at
/// the one that is set for this server, which is to send the browser back to the callback of this
/// server with a `state` that names `app`.
pub open spec fn leads_to_affine(link: Seq<char>, config: ConfigView, app: NativeAppView) -> bool {
    exists|redirect_uri: Seq<char>, state: Seq<char>|
        {
            &&& #[trigger] stands_for(
                redirect_uri,
                config.public_url() + "/auth/affine_callback"@ + "?state="@ + state,
            )
            &&& #[trigger] stands_for(state, decimal(app.port as nat) + seq![':'] + app.public_key)
            &&& app_of_state(decode_utf8(query_value(state))) == Ok::<NativeAppView, ErrorView>(app)
            &&& match (config.affine_public_url, config.affine_url) {
                (Some(affine), _) => link == r#"<a href=""#@ + (affine
                    + "/sign-in?redirect_uri="@ + redirect_uri)
                    + r#"" class="btn btn-affine">Sign in with AFFiNE</a>"#@,
                (None, Some(affine)) => link == r#"<a href=""#@ + (affine
                    + "/sign-in?redirect_uri="@ + redirect_uri)
                    + r#"" class="btn btn-affine">Sign in with AFFiNE</a>"#@,
                (None, None) => false,
            }
        }
}

proof fn lemma_github_button(config: ConfigView, app: NativeAppView)
    requires
        is_configured(config.github_client_id),
    ensures
        leads_to_github(github_button(config, app), config, app),
{
    let redirect_uri = url_encoded(config.public_url() + "/auth/github_callback"@);
    let state = url_encoded(decimal(app.port as nat) + seq![':'] + app.public_key);
    encoded_text_stands_for_the_text(config.public_url() + "/auth/github_callback"@);
    encoded_text_stands_for_the_text(decimal(app.port as nat) + seq![':'] + app.public_key);
    the_callback_reads_the_app_of_the_page(app);
    let client_id = config.github_client_id->0;
    assert(github_button(config, app) =~= r#"<a href=""#@
        + "https://github.com/login/oauth/authorize?client_id="@ + client_id + "&redirect_uri="@
        + redirect_uri + "&state="@ + state
        + r#"" class="btn btn-github">Sign in with GitHub</a>"#@);
}

proof fn lemma_affine_button(config: ConfigView, app: NativeAppView)
    requires
        is_configured(config.affine_url),
    ensures
        leads_to_affine(affine_button(config, app), config, app),
{
    let state = url_encoded(decimal(app.port as nat) + seq![':'] + app.public_key);
    let back = config.public_url() + "/auth/affine_callback"@ + "?state="@ + state;
    encoded_text_stands_for_the_text(back);
    encoded_text_stands_for_the_text(decimal(app.port as nat) + seq![':'] + app.public_key);
    the_callback_reads_the_app_of_the_page(app);
    assert(stands_for(url_encoded(back), back));
    assert(affine_redirect_uri(config, app) =~= back);
}

/// The page for an app holds a link for each provider that is configured, which takes the browser
/// there and brings that very app back, and none for the others.
pub proof fn the_links_of_the_page_bring_its_app_back(config: ConfigView, app: NativeAppView)
    ensures
        exists|github: Seq<char>, affine: Seq<char>|
            {
                &&& signin_page(config, app) == #[trigger] page_with_links(github, affine)
                &&& if is_configured(config.github_client_id) {
                    leads_to_github(github, config, app)
                } else {
                    github.len() == 0
                }
                &&& if is_configured(config.affine_url) {
                    leads_to_affine(affine, config, app)
                } else {
                    affine.len() == 0
                }
            },
{
    let github = github_button(config, app);
    let affine = affine_button(config, app);
    if is_configured(config.github_client_id) {
        lemma_github_button(config, app);
    }
    if is_configured(config.affine_url) {
        lemma_affine_button(config, app);
    }
    assert(signin_page(config, app) == page_with_links(github, affine));
}

/// The sign-in page with these links on it.
pub open spec fn page_with_links(github: Seq<char>, affine: Seq<char>) -> Seq<char> {
    SIGNIN_PAGE_START@ + github + SIGNIN_PAGE_SEPARATOR@ + affine + SIGNIN_PAGE_END@
}

} // verus!
