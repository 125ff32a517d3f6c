//! Signing in with AFFiNE.

use crate::config::{Config, ConfigView};
use crate::error::{Error, ErrorView, StatusCode, outcome};
use crate::fetch::{
    Body, BodyView, HttpRequest, HttpRequestView, Method, received, received_view, reply_view,
};
use crate::github::GithubCallbackParamsView;
use crate::handoff::{
    AwaitingUser, AwaitingUserView, HandoffReplies, RedirectView, handed_off, handoff_redirect,
};
use crate::native_app::{
    NativeApp, NativeAppView, app_is_read_back_from_its_state, app_of_state,
};
use vstd::prelude::*;

verus! {

/// What the browser brings back from AFFiNE.
pub struct AffineCallbackParams {
    /// What AFFiNE tells who the user is for.
    pub code: String,
    /// What this server gave the browser to take along.
    pub state: String,
}

pub struct AffineCallbackParamsView {
    pub code: Seq<char>,
    pub state: Seq<char>,
}

impl DeepView for AffineCallbackParams {
    type V = AffineCallbackParamsView;

    open spec fn deep_view(&self) -> AffineCallbackParamsView {
        AffineCallbackParamsView { code: self.code@, state: self.state@ }
    }
}

/// What AFFiNE tells of a user.
pub struct AffineExchangeResponse {
    pub id: String,
    pub email: String,
    pub name: Option<String>,
    pub avatar_url: Option<String>,
}

pub struct AffineExchangeResponseView {
    pub id: Seq<char>,
    pub email: Seq<char>,
    pub name: Option<Seq<char>>,
    pub avatar_url: Option<Seq<char>>,
}

impl DeepView for AffineExchangeResponse {
    type V = AffineExchangeResponseView;

    open spec fn deep_view(&self) -> AffineExchangeResponseView {
        AffineExchangeResponseView {
            id: self.id@,
            email: self.email@,
            name: self.name.deep_view(),
            avatar_url: self.avatar_url.deep_view(),
        }
    }
}

/// A sign-in that waits for AFFiNE to tell who the user is.
pub struct AwaitingAffineUser {
    pub app: NativeApp,
}

pub struct AwaitingAffineUserView {
    pub app: NativeAppView,
}

impl DeepView for AwaitingAffineUser {
    type V = AwaitingAffineUserView;

    open spec fn deep_view(&self) -> AwaitingAffineUserView {
        AwaitingAffineUserView { app: self.app.deep_view() }
    }
}

/// The request that asks AFFiNE whom a code stands for.
pub open spec fn exchange_request(affine_url: Seq<char>, code: Seq<char>) -> HttpRequestView {
    HttpRequestView {
        method: Method::Post,
        url: affine_url + "/api/auth/open-app/exchange"@,
        headers: Seq::empty(),
        body: BodyView::Json(seq![("code"@, code)]),
        fails_on_error_status: true,
    }
}

/// How a sign-in goes on when the browser comes back from AFFiNE: the `state` has to name a native
/// app, AFFiNE has to be configured, and then the code is exchanged for what AFFiNE tells of the
/// user.
pub open spec fn callback(params: AffineCallbackParamsView, config: ConfigView) -> Result<
    (AwaitingAffineUserView, HttpRequestView),
    ErrorView,
> {
    match (app_of_state(params.state), config.affine_url) {
        (Err(error), _) => Err(error),
        (Ok(app), Some(affine_url)) => Ok(
            (AwaitingAffineUserView { app }, exchange_request(affine_url, params.code)),
        ),
        (Ok(_), None) => Err(
            ErrorView::Http(StatusCode::InternalServerError, "AFFiNE auth not configured"@),
        ),
    }
}

/// Goes on with a sign-in when the browser comes back from AFFiNE.
pub fn affine_callback(params: AffineCallbackParams, config: &Config) -> (next: Result<
    (AwaitingAffineUser, HttpRequest),
    Error,
>)
    ensures
        outcome(next) == callback(params.deep_view(), config.deep_view()),
        next is Ok <==> app_of_state(params.state@) is Ok && config.affine_url is Some,
        next matches Ok((waiting, request)) ==> {
            &&& app_of_state(params.state@) matches Ok(app)
            &&& waiting.app.port == app.port
            &&& waiting.app.public_key@ == app.public_key
            &&& config.affine_url matches Some(affine_url)
            &&& request.method == Method::Post
            &&& request.url@ == affine_url@ + "/api/auth/open-app/exchange"@
            &&& request.headers@.len() == 0
            &&& request.fails_on_error_status
            &&& request.body matches Body::Json(fields)
            &&& fields@.len() == 1
            &&& fields@[0].0@ == "code"@
            &&& fields@[0].1@ == params.code@
        },
{
    let app = match NativeApp::from_state(params.state.as_str()) {
        Ok(app) => app,
        Err(error) => {
            return Err(error);
        },
    };
    let affine_url = match &config.affine_url {
        Some(affine_url) => affine_url,
        None => {
            return Err(
                Error::http(StatusCode::InternalServerError, "AFFiNE auth not configured"),
            );
        },
    };
    let mut url = affine_url.clone();
    url.append("/api/auth/open-app/exchange");
    let headers = Vec::new();
    let fields = vec![("code".to_owned(), params.code)];
    let request = HttpRequest {
        method: Method::Post,
        url,
        headers,
        body: Body::Json(fields),
        fails_on_error_status: true,
    };
    proof {
        let expected = exchange_request(affine_url@, params.code@);
        assert(headers.deep_view() =~= expected.headers);
        assert(fields.deep_view() =~= expected.body->Json_0);
    }
    Ok((AwaitingAffineUser { app }, request))
}

impl AwaitingAffineUserView {
    pub open spec fn user_received(
        self,
        reply: Result<AffineExchangeResponseView, Seq<char>>,
    ) -> Result<(AwaitingUserView, AffineExchangeResponseView), ErrorView> {
        match received_view(reply) {
            Err(error) => Err(error),
            Ok(user) => Ok((AwaitingUserView { app: self.app }, user)),
        }
    }
}

impl AwaitingAffineUser {
    /// Goes on with what AFFiNE tells of the user: the database is to store all of it.
    pub fn user_received(self, reply: Result<AffineExchangeResponse, String>) -> (next: Result<
        (AwaitingUser, AffineExchangeResponse),
        Error,
    >)
        ensures
            outcome(next) == self.deep_view().user_received(reply_view(reply)),
            reply matches Ok(user) ==> {
                &&& next matches Ok((waiting, stored))
                &&& waiting.app == self.app
                &&& stored.id == user.id
                &&& stored.email == user.email
                &&& stored.name == user.name
                &&& stored.avatar_url == user.avatar_url
            },
            reply matches Err(cause) ==> next == Err::<
                (AwaitingUser, AffineExchangeResponse),
                Error,
            >(Error::Internal(cause)),
    {
        match received(reply) {
            Ok(user) => Ok((AwaitingUser { app: self.app }, user)),
            Err(error) => Err(error),
        }
    }
}

/// The replies that a sign-in with AFFiNE may get on its way.
pub struct AffineReplies {
    pub user: Result<AffineExchangeResponseView, Seq<char>>,
    pub handoff: HandoffReplies,
}

/// How a sign-in with AFFiNE ends, from the moment at which the browser comes back.
pub open spec fn affine_signin(
    params: AffineCallbackParamsView,
    config: ConfigView,
    replies: AffineReplies,
) -> Result<RedirectView, ErrorView> {
    match callback(params, config) {
        Err(error) => Err(error),
        Ok((request, _)) => match request.user_received(replies.user) {
            Err(error) => Err(error),
            Ok((request, _)) => handed_off(request, replies.handoff),
        },
    }
}

/// A sign-in with AFFiNE that a native app started, and in which nothing fails, sends the browser
/// to that very app.
pub proof fn affine_signin_ends_at_the_app_that_started_it(
    app: NativeAppView,
    code: Seq<char>,
    config: ConfigView,
    replies: AffineReplies,
)
    requires
        config.affine_url is Some,
        replies.user is Ok,
        replies.handoff.user is Ok,
        replies.handoff.token is Ok,
        replies.handoff.encrypted is Ok,
    ensures
        affine_signin(AffineCallbackParamsView { code, state: app.state() }, config, replies) == Ok::<
            RedirectView,
            ErrorView,
        >(
            handoff_redirect(
                app.port,
                replies.handoff.user->Ok_0,
                replies.handoff.encrypted->Ok_0,
            ),
        ),
{
    app_is_read_back_from_its_state(app);
}

/// A sign-in with AFFiNE leads to a redirect only where the `state` names an app, AFFiNE is
/// configured and no call failed, and then to the app that the `state` names.
pub proof fn affine_signin_redirects_only_to_the_app_in_its_state(
    params: AffineCallbackParamsView,
    config: ConfigView,
    replies: AffineReplies,
)
    ensures
        affine_signin(params, config, replies) matches Ok(redirect) ==> {
            &&& app_of_state(params.state) matches Ok(app)
            &&& config.affine_url is Some
            &&& replies.user is Ok
            &&& replies.handoff.user matches Ok(user_id)
            &&& replies.handoff.token is Ok
            &&& replies.handoff.encrypted matches Ok(encrypted)
            &&& redirect == handoff_redirect(app.port, user_id, encrypted)
        },
{
}

/// The server itself talks to AFFiNE at `affine_url`, wherever browsers are sent.
pub proof fn the_exchange_does_not_depend_on_the_browser_url(
    params: AffineCallbackParamsView,
    config: ConfigView,
    browser_url: Option<Seq<char>>,
)
    ensures
        callback(params, ConfigView { affine_public_url: browser_url, ..config }) == callback(
            params,
            config,
        ),
{
}

/// A `state` that names no app is refused in the same way whichever provider sent it, and whatever
/// is configured.
pub proof fn a_bad_state_is_refused_alike_by_both_callbacks(
    code: Seq<char>,
    state: Seq<char>,
    config: ConfigView,
    other: ConfigView,
)
    requires
        app_of_state(state) is Err,
    ensures
        callback(AffineCallbackParamsView { code, state }, config) matches Err(error) && {
            &&& error == app_of_state(state)->Err_0
            &&& error matches ErrorView::Http(StatusCode::BadRequest, _)
            &&& crate::github::callback(GithubCallbackParamsView { code, state }, other) matches Err(
                same,
            )
            &&& same == error
        },
{
}

/// What a sign-in with AFFiNE is answered in each case. What is wrong with the request goes before
/// what is wrong with the server, and that before what AFFiNE or the database reply.
pub proof fn what_an_affine_signin_is_answered(
    params: AffineCallbackParamsView,
    config: ConfigView,
    replies: AffineReplies,
)
    ensures
        affine_signin(params, config, replies) == match (
            app_of_state(params.state),
            config.affine_url,
            replies.user,
        ) {
            (Err(error), _, _) => Err(error),
            (Ok(_), None, _) => Err(
                ErrorView::Http(StatusCode::InternalServerError, "AFFiNE auth not configured"@),
            ),
            (Ok(_), Some(_), Err(cause)) => Err(ErrorView::Internal(cause)),
            (Ok(app), Some(_), Ok(_)) => handed_off(AwaitingUserView { app }, replies.handoff),
        },
{
}

/// What is stored of a user is what AFFiNE told of them, in each of its parts, and the sign-in goes
/// on for the same app.
pub proof fn the_stored_user_is_the_one_affine_told_of(
    request: AwaitingAffineUserView,
    user: AffineExchangeResponseView,
)
    ensures
        request.user_received(Ok(user)) matches Ok((next, stored)) && {
            &&& next.app == request.app
            &&& stored.id == user.id
            &&& stored.email == user.email
            &&& stored.name == user.name
            &&& stored.avatar_url == user.avatar_url
        },
{
}

/// The code is exchanged at the AFFiNE server that is configured, and the sign-in goes on for the
/// app in the `state`.
pub proof fn the_code_is_exchanged_at_the_configured_server(
    params: AffineCallbackParamsView,
    config: ConfigView,
    affine_url: Seq<char>,
    app: NativeAppView,
)
    requires
        config.affine_url == Some(affine_url),
        app_of_state(params.state) == Ok::<NativeAppView, ErrorView>(app),
    ensures
        callback(params, config) matches Ok((next, request)) && {
            &&& next.app == app
            &&& request.method == Method::Post
            &&& request.url == affine_url + "/api/auth/open-app/exchange"@
            &&& request.headers.len() == 0
            &&& request.fails_on_error_status
            &&& request.body matches BodyView::Json(fields)
            &&& fields.len() == 1
            &&& fields[0] == ("code"@, params.code)
        },
{
}

/// A call to AFFiNE that fails ends the sign-in with what the client says of the failure.
pub proof fn a_failed_call_to_affine_ends_the_signin(
    request: AwaitingAffineUserView,
    cause: Seq<char>,
)
    ensures
        request.user_received(Err(cause)) matches Err(ErrorView::Internal(said)) && said == cause,
{
}

} // verus!
