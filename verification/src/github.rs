//! Signing in with GitHub.

use crate::clock::{Timestamp, is_read_or_since_1970, parse_or_now, rfc3339_instant};
use crate::config::{Config, ConfigView};
use crate::error::{Error, ErrorView, StatusCode, outcome};
use crate::fetch::{
    Body, BodyView, HttpRequest, HttpRequestView, Method, received, received_view, reply_view,
};
use crate::handoff::{
    AwaitingUser, AwaitingUserView, HandoffReplies, RedirectView, handed_off, handoff_redirect,
};
use crate::native_app::{
    NativeApp, NativeAppView, app_is_read_back_from_its_state, app_of_state,
};
use vstd::prelude::*;

verus! {

/// What the browser brings back from GitHub.
pub struct GithubCallbackParams {
    /// What GitHub gives an access token for.
    pub code: String,
    /// What this server gave the browser to take along.
    pub state: String,
}

pub struct GithubCallbackParamsView {
    pub code: Seq<char>,
    pub state: Seq<char>,
}

impl DeepView for GithubCallbackParams {
    type V = GithubCallbackParamsView;

    open spec fn deep_view(&self) -> GithubCallbackParamsView {
        GithubCallbackParamsView { code: self.code@, state: self.state@ }
    }
}

/// GitHub's answer to a code.
pub struct GithubTokenResponse {
    pub access_token: String,
}

pub struct GithubTokenResponseView {
    pub access_token: Seq<char>,
}

impl DeepView for GithubTokenResponse {
    type V = GithubTokenResponseView;

    open spec fn deep_view(&self) -> GithubTokenResponseView {
        GithubTokenResponseView { access_token: self.access_token@ }
    }
}

/// What GitHub tells of a user.
pub struct GithubUserInfo {
    pub id: i32,
    pub login: String,
    pub email: Option<String>,
    pub name: Option<String>,
    pub created_at: String,
}

pub struct GithubUserInfoView {
    pub id: i32,
    pub login: Seq<char>,
    pub email: Option<Seq<char>>,
    pub name: Option<Seq<char>>,
    pub created_at: Seq<char>,
}

impl DeepView for GithubUserInfo {
    type V = GithubUserInfoView;

    open spec fn deep_view(&self) -> GithubUserInfoView {
        GithubUserInfoView {
            id: self.id,
            login: self.login@,
            email: self.email.deep_view(),
            name: self.name.deep_view(),
            created_at: self.created_at@,
        }
    }
}

/// The order to store the user who has a GitHub account, or to bring what is stored up to date.
pub struct GithubAccount {
    pub login: String,
    pub id: i32,
    pub email: Option<String>,
    pub name: Option<String>,
    pub created_at: Timestamp,
    /// The channel that a new user joins.
    pub initial_channel_id: Option<i32>,
}

pub struct GithubAccountView {
    pub login: Seq<char>,
    pub id: i32,
    pub email: Option<Seq<char>>,
    pub name: Option<Seq<char>>,
    pub created_at: Timestamp,
    pub initial_channel_id: Option<i32>,
}

impl DeepView for GithubAccount {
    type V = GithubAccountView;

    open spec fn deep_view(&self) -> GithubAccountView {
        GithubAccountView {
            login: self.login@,
            id: self.id,
            email: self.email.deep_view(),
            name: self.name.deep_view(),
            created_at: self.created_at,
            initial_channel_id: self.initial_channel_id,
        }
    }
}

/// A sign-in that waits for GitHub's answer to its code.
pub struct AwaitingGithubToken {
    pub app: NativeApp,
}

pub struct AwaitingGithubTokenView {
    pub app: NativeAppView,
}

impl DeepView for AwaitingGithubToken {
    type V = AwaitingGithubTokenView;

    open spec fn deep_view(&self) -> AwaitingGithubTokenView {
        AwaitingGithubTokenView { app: self.app.deep_view() }
    }
}

/// A sign-in that waits for GitHub to tell who the user is.
pub struct AwaitingGithubUser {
    pub app: NativeApp,
}

pub struct AwaitingGithubUserView {
    pub app: NativeAppView,
}

impl DeepView for AwaitingGithubUser {
    type V = AwaitingGithubUserView;

    open spec fn deep_view(&self) -> AwaitingGithubUserView {
        AwaitingGithubUserView { app: self.app.deep_view() }
    }
}

/// The request that asks GitHub for an access token.
pub open spec fn token_request(
    client_id: Seq<char>,
    client_secret: Seq<char>,
    code: Seq<char>,
) -> HttpRequestView {
    HttpRequestView {
        method: Method::Post,
        url: "https://github.com/login/oauth/access_token"@,
        headers: seq![("Accept"@, "application/json"@)],
        body: BodyView::Form(
            seq![("client_id"@, client_id), ("client_secret"@, client_secret), ("code"@, code)],
        ),
        fails_on_error_status: false,
    }
}

/// The request that asks GitHub who the bearer of an access token is.
pub open spec fn user_request(access_token: Seq<char>) -> HttpRequestView {
    HttpRequestView {
        method: Method::Get,
        url: "https://api.github.com/user"@,
        headers: seq![
            ("Authorization"@, "Bearer "@ + access_token),
            ("User-Agent"@, "zed-collab"@),
        ],
        body: BodyView::Empty,
        fails_on_error_status: false,
    }
}

/// How a sign-in goes on when the browser comes back from GitHub: the `state` has to name a native
/// app, GitHub has to be configured, and then the code is exchanged for an access token.
pub open spec fn callback(params: GithubCallbackParamsView, config: ConfigView) -> Result<
    (AwaitingGithubTokenView, HttpRequestView),
    ErrorView,
> {
    match (app_of_state(params.state), config.github_client_id, config.github_client_secret) {
        (Err(error), _, _) => Err(error),
        (Ok(app), Some(client_id), Some(client_secret)) => Ok(
            (AwaitingGithubTokenView { app }, token_request(client_id, client_secret, params.code)),
        ),
        (Ok(_), _, _) => Err(
            ErrorView::Http(StatusCode::InternalServerError, "GitHub OAuth not configured"@),
        ),
    }
}

/// Goes on with a sign-in when the browser comes back from GitHub.
pub fn github_callback(params: GithubCallbackParams, config: &Config) -> (next: Result<
    (AwaitingGithubToken, HttpRequest),
    Error,
>)
    ensures
        outcome(next) == callback(params.deep_view(), config.deep_view()),
        next is Ok <==> {
            &&& app_of_state(params.state@) is Ok
            &&& config.github_client_id is Some
            &&& config.github_client_secret is Some
        },
        next matches Ok((waiting, request)) ==> {
            &&& app_of_state(params.state@) matches Ok(app)
            &&& waiting.app.port == app.port
            &&& waiting.app.public_key@ == app.public_key
            &&& request.method == Method::Post
            &&& request.url@ == "https://github.com/login/oauth/access_token"@
            &&& request.headers@.len() == 1
            &&& request.headers@[0].0@ == "Accept"@
            &&& request.headers@[0].1@ == "application/json"@
            &&& !request.fails_on_error_status
            &&& config.github_client_id matches Some(client_id)
            &&& config.github_client_secret matches Some(client_secret)
            &&& request.body matches Body::Form(fields)
            &&& fields@.len() == 3
            &&& fields@[0].0@ == "client_id"@
            &&& fields@[0].1@ == client_id@
            &&& fields@[1].0@ == "client_secret"@
            &&& fields@[1].1@ == client_secret@
            &&& fields@[2].0@ == "code"@
            &&& fields@[2].1@ == params.code@
        },
{
    let app = match NativeApp::from_state(params.state.as_str()) {
        Ok(app) => app,
        Err(error) => {
            return Err(error);
        },
    };
    let (client_id, client_secret) = match (&config.github_client_id, &config.github_client_secret) {
        (Some(client_id), Some(client_secret)) => (client_id.clone(), client_secret.clone()),
        _ => {
            return Err(
                Error::http(StatusCode::InternalServerError, "GitHub OAuth not configured"),
            );
        },
    };
    let headers = vec![("Accept".to_owned(), "application/json".to_owned())];
    let fields = vec![
        ("client_id".to_owned(), client_id),
        ("client_secret".to_owned(), client_secret),
        ("code".to_owned(), params.code),
    ];
    let request = HttpRequest {
        method: Method::Post,
        url: "https://github.com/login/oauth/access_token".to_owned(),
        headers,
        body: Body::Form(fields),
        fails_on_error_status: false,
    };
    proof {
        let expected = token_request(client_id@, client_secret@, params.code@);
        assert(headers.deep_view() =~= expected.headers);
        assert(fields.deep_view() =~= expected.body->Form_0);
    }
    Ok((AwaitingGithubToken { app }, request))
}

impl AwaitingGithubTokenView {
    pub open spec fn token_received(self, reply: Result<GithubTokenResponseView, Seq<char>>) -> Result<
        (AwaitingGithubUserView, HttpRequestView),
        ErrorView,
    > {
        match received_view(reply) {
            Err(error) => Err(error),
            Ok(token) => Ok(
                (AwaitingGithubUserView { app: self.app }, user_request(token.access_token)),
            ),
        }
    }
}

impl AwaitingGithubToken {
    /// Goes on with GitHub's answer to the code: asks who the user is.
    pub fn token_received(self, reply: Result<GithubTokenResponse, String>) -> (next: Result<
        (AwaitingGithubUser, HttpRequest),
        Error,
    >)
        ensures
            outcome(next) == self.deep_view().token_received(reply_view(reply)),
            reply matches Ok(token) ==> {
                &&& next matches Ok((waiting, request))
                &&& waiting.app == self.app
                &&& request.method == Method::Get
                &&& request.url@ == "https://api.github.com/user"@
                &&& request.headers@.len() == 2
                &&& request.headers@[0].0@ == "Authorization"@
                &&& request.headers@[0].1@ == "Bearer "@ + token.access_token@
                &&& request.headers@[1].0@ == "User-Agent"@
                &&& request.headers@[1].1@ == "zed-collab"@
                &&& request.body is Empty
                &&& !request.fails_on_error_status
            },
            reply matches Err(cause) ==> next == Err::<(AwaitingGithubUser, HttpRequest), Error>(
                Error::Internal(cause),
            ),
    {
        let token = match received(reply) {
            Ok(token) => token,
            Err(error) => {
                return Err(error);
            },
        };
        let mut authorization = "Bearer ".to_owned();
        authorization.append(token.access_token.as_str());
        let headers = vec![
            ("Authorization".to_owned(), authorization),
            ("User-Agent".to_owned(), "zed-collab".to_owned()),
        ];
        proof {
            assert(headers.deep_view() =~= user_request(token.access_token@).headers);
        }
        let request = HttpRequest {
            method: Method::Get,
            url: "https://api.github.com/user".to_owned(),
            headers,
            body: Body::Empty,
            fails_on_error_status: false,
        };
        Ok((AwaitingGithubUser { app: self.app }, request))
    }
}

impl GithubUserInfoView {
    /// What the database is to store of a user whose account is as old as `created_at`.
    pub open spec fn account(self, created_at: Timestamp) -> GithubAccountView {
        GithubAccountView {
            login: self.login,
            id: self.id,
            email: self.email,
            name: self.name,
            created_at,
            initial_channel_id: None,
        }
    }
}

impl GithubUserInfo {
    /// What the database is to store of a user whose account is as old as `created_at`.
    pub fn account(self, created_at: Timestamp) -> (account: GithubAccount)
        ensures
            account.deep_view() == self.deep_view().account(created_at),
            account.login == self.login,
            account.id == self.id,
            account.email == self.email,
            account.name == self.name,
            account.created_at == created_at,
            account.initial_channel_id is None,
    {
        GithubAccount {
            login: self.login,
            id: self.id,
            email: self.email,
            name: self.name,
            created_at,
            initial_channel_id: None,
        }
    }
}

impl AwaitingGithubUserView {
    /// How the sign-in goes on, where `created_at` is the age of the account that GitHub told of.
    pub open spec fn user_received(
        self,
        reply: Result<GithubUserInfoView, Seq<char>>,
        created_at: Timestamp,
    ) -> Result<(AwaitingUserView, GithubAccountView), ErrorView> {
        match received_view(reply) {
            Err(error) => Err(error),
            Ok(info) => Ok((AwaitingUserView { app: self.app }, info.account(created_at))),
        }
    }
}

impl AwaitingGithubUser {
    /// Goes on with what GitHub tells of the user: the account is stored. An account whose age
    /// GitHub gives in no notation that can be read counts as new. Of the age that it then gets,
    /// which is what the clock says, only that it lies at no time before 1970 is claimed.
    pub fn user_received(self, reply: Result<GithubUserInfo, String>) -> (next: Result<
        (AwaitingUser, GithubAccount),
        Error,
    >)
        ensures
            exists|created_at: Timestamp|
                {
                    &&& outcome(next) == #[trigger] self.deep_view().user_received(
                        reply_view(reply),
                        created_at,
                    )
                    &&& reply matches Ok(info) ==> is_read_or_since_1970(
                        created_at,
                        rfc3339_instant(info.created_at@),
                    )
                },
            reply matches Ok(info) ==> {
                &&& next matches Ok((waiting, account))
                &&& waiting.app == self.app
                &&& account.login == info.login
                &&& account.id == info.id
                &&& account.email == info.email
                &&& account.name == info.name
                &&& account.initial_channel_id is None
                &&& match rfc3339_instant(info.created_at@) {
                    Some((seconds, nanos)) => account.created_at == Timestamp { seconds, nanos },
                    None => account.created_at.seconds >= 0 && account.created_at.nanos
                        < 1_000_000_000,
                }
            },
            reply matches Err(cause) ==> next == Err::<(AwaitingUser, GithubAccount), Error>(
                Error::Internal(cause),
            ),
    {
        let info = match received(reply) {
            Ok(info) => info,
            Err(error) => {
                let ghost any = Timestamp { seconds: 0, nanos: 0 };
                assert(outcome(Err::<(AwaitingUser, GithubAccount), Error>(error))
                    == self.deep_view().user_received(reply_view(reply), any));
                return Err(error);
            },
        };
        let created_at = parse_or_now(info.created_at.as_str());
        let account = info.account(created_at);
        let next = Ok((AwaitingUser { app: self.app }, account));
        assert(outcome(next) == self.deep_view().user_received(reply_view(reply), created_at));
        next
    }
}

/// The replies that a sign-in with GitHub may get on its way.
pub struct GithubReplies {
    pub token: Result<GithubTokenResponseView, Seq<char>>,
    pub user: Result<GithubUserInfoView, Seq<char>>,
    /// The age of the account that GitHub told of.
    pub created_at: Timestamp,
    pub handoff: HandoffReplies,
}

/// How a sign-in with GitHub ends, from the moment at which the browser comes back.
pub open spec fn github_signin(
    params: GithubCallbackParamsView,
    config: ConfigView,
    replies: GithubReplies,
) -> Result<RedirectView, ErrorView> {
    match callback(params, config) {
        Err(error) => Err(error),
        Ok((request, _)) => match request.token_received(replies.token) {
            Err(error) => Err(error),
            Ok((request, _)) => match request.user_received(replies.user, replies.created_at) {
                Err(error) => Err(error),
                Ok((request, _)) => handed_off(request, replies.handoff),
            },
        },
    }
}

/// A sign-in with GitHub that a native app started, and in which nothing fails, sends the browser
/// to that very app.
pub proof fn github_signin_ends_at_the_app_that_started_it(
    app: NativeAppView,
    code: Seq<char>,
    config: ConfigView,
    replies: GithubReplies,
)
    requires
        config.github_client_id is Some,
        config.github_client_secret is Some,
        replies.token is Ok,
        replies.user is Ok,
        replies.handoff.user is Ok,
        replies.handoff.token is Ok,
        replies.handoff.encrypted is Ok,
    ensures
        github_signin(GithubCallbackParamsView { code, state: app.state() }, config, replies) == Ok::<
            RedirectView,
            ErrorView,
        >(
            handoff_redirect(
                app.port,
                replies.handoff.user->Ok_0,
                replies.handoff.encrypted->Ok_0,
            ),
        ),
{
    app_is_read_back_from_its_state(app);
}

/// A sign-in with GitHub leads to a redirect only where the `state` names an app, GitHub is
/// configured and no call failed, and then to the app that the `state` names.
pub proof fn github_signin_redirects_only_to_the_app_in_its_state(
    params: GithubCallbackParamsView,
    config: ConfigView,
    replies: GithubReplies,
)
    ensures
        github_signin(params, config, replies) matches Ok(redirect) ==> {
            &&& app_of_state(params.state) matches Ok(app)
            &&& config.github_client_id is Some
            &&& config.github_client_secret is Some
            &&& replies.token is Ok
            &&& replies.user is Ok
            &&& replies.handoff.user matches Ok(user_id)
            &&& replies.handoff.token is Ok
            &&& replies.handoff.encrypted matches Ok(encrypted)
            &&& redirect == handoff_redirect(app.port, user_id, encrypted)
        },
{
}

/// The client's secret is sent to GitHub's token endpoint, and the second request, which does not
/// go there, does not depend on it.
pub proof fn the_client_secret_goes_to_the_token_endpoint_only(
    params: GithubCallbackParamsView,
    config: ConfigView,
    other: ConfigView,
    reply: Result<GithubTokenResponseView, Seq<char>>,
)
    ensures
        callback(params, config) matches Ok((request, first)) ==> {
            &&& first.url == "https://github.com/login/oauth/access_token"@
            &&& callback(params, other) matches Ok((same, _)) ==> request.token_received(reply)
                == same.token_received(reply)
        },
{
}

/// What a sign-in with GitHub is answered in each case. What is wrong with the request goes before
/// what is wrong with the server, and that before what GitHub or the database reply.
pub proof fn what_a_github_signin_is_answered(
    params: GithubCallbackParamsView,
    config: ConfigView,
    replies: GithubReplies,
)
    ensures
        github_signin(params, config, replies) == match app_of_state(params.state) {
            Err(error) => Err(error),
            Ok(app) => if config.github_client_id is None || config.github_client_secret is None {
                Err(
                    ErrorView::Http(
                        StatusCode::InternalServerError,
                        "GitHub OAuth not configured"@,
                    ),
                )
            } else {
                match (replies.token, replies.user) {
                    (Err(cause), _) => Err(ErrorView::Internal(cause)),
                    (Ok(_), Err(cause)) => Err(ErrorView::Internal(cause)),
                    (Ok(_), Ok(_)) => handed_off(AwaitingUserView { app }, replies.handoff),
                }
            },
        },
{
}

/// The account that is stored is the one of which GitHub told, in each of its parts: nothing is
/// left out, and a user who is new joins no channel.
pub proof fn the_stored_account_is_the_one_github_told_of(
    request: AwaitingGithubUserView,
    info: GithubUserInfoView,
    created_at: Timestamp,
)
    ensures
        request.user_received(Ok(info), created_at) matches Ok((next, account)) && {
            &&& next.app == request.app
            &&& account.login == info.login
            &&& account.id == info.id
            &&& account.email == info.email
            &&& account.name == info.name
            &&& account.created_at == created_at
            &&& account.initial_channel_id is None
        },
{
}

/// The code is exchanged at GitHub's token endpoint with the credentials that are configured, and
/// the sign-in goes on for the app in the `state`.
pub proof fn the_code_is_exchanged_with_the_configured_credentials(
    params: GithubCallbackParamsView,
    config: ConfigView,
    client_id: Seq<char>,
    client_secret: Seq<char>,
    app: NativeAppView,
)
    requires
        config.github_client_id == Some(client_id),
        config.github_client_secret == Some(client_secret),
        app_of_state(params.state) == Ok::<NativeAppView, ErrorView>(app),
    ensures
        callback(params, config) matches Ok((next, request)) && {
            &&& next.app == app
            &&& request.method == Method::Post
            &&& request.url == "https://github.com/login/oauth/access_token"@
            &&& request.headers.len() == 1
            &&& request.headers[0] == ("Accept"@, "application/json"@)
            &&& !request.fails_on_error_status
            &&& request.body matches BodyView::Form(fields)
            &&& fields.len() == 3
            &&& fields[0] == ("client_id"@, client_id)
            &&& fields[1] == ("client_secret"@, client_secret)
            &&& fields[2] == ("code"@, params.code)
        },
{
}

/// GitHub is asked who the bearer of the token is that it gave, in the name of this server, and the
/// sign-in goes on for the same app.
pub proof fn the_bearer_of_the_given_token_is_asked_for(
    request: AwaitingGithubTokenView,
    token: GithubTokenResponseView,
)
    ensures
        request.token_received(Ok(token)) matches Ok((next, asked)) && {
            &&& next.app == request.app
            &&& asked.method == Method::Get
            &&& asked.url == "https://api.github.com/user"@
            &&& asked.headers.len() == 2
            &&& asked.headers[0] == ("Authorization"@, "Bearer "@ + token.access_token)
            &&& asked.headers[1] == ("User-Agent"@, "zed-collab"@)
            &&& asked.body is Empty
            &&& !asked.fails_on_error_status
        },
{
}

/// A call to GitHub that fails ends the sign-in with what the client says of the failure.
pub proof fn a_failed_call_to_github_ends_the_signin(
    token: AwaitingGithubTokenView,
    user: AwaitingGithubUserView,
    cause: Seq<char>,
    created_at: Timestamp,
)
    ensures
        token.token_received(Err(cause)) matches Err(ErrorView::Internal(said)) && said == cause,
        user.user_received(Err(cause), created_at) matches Err(ErrorView::Internal(said)) && said
            == cause,
{
}

} // verus!
