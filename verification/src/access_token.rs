//! Access tokens for users, and for administrators who act as another user.

use crate::accounts::{NewAccessToken, TokenEncryption, TokenEncryptionView, User, UserId};
use crate::error::{Error, ErrorView, StatusCode, outcome};
use vstd::prelude::*;

verus! {

/// What a request for an access token says.
pub struct CreateAccessTokenQueryParams {
    /// The key for which the token is to be encrypted.
    pub public_key: String,
    /// The GitHub login of the user to act as.
    pub impersonate: Option<String>,
}

pub struct CreateAccessTokenQueryParamsView {
    pub public_key: Seq<char>,
    pub impersonate: Option<Seq<char>>,
}

impl DeepView for CreateAccessTokenQueryParams {
    type V = CreateAccessTokenQueryParamsView;

    open spec fn deep_view(&self) -> CreateAccessTokenQueryParamsView {
        CreateAccessTokenQueryParamsView {
            public_key: self.public_key@,
            impersonate: self.impersonate.deep_view(),
        }
    }
}

/// The answer to a request for an access token.
pub struct CreateAccessTokenResponse {
    /// The user as whom the token's bearer acts.
    pub user_id: UserId,
    pub encrypted_access_token: String,
}

pub struct CreateAccessTokenResponseView {
    pub user_id: UserId,
    pub encrypted_access_token: Seq<char>,
}

impl DeepView for CreateAccessTokenResponse {
    type V = CreateAccessTokenResponseView;

    open spec fn deep_view(&self) -> CreateAccessTokenResponseView {
        CreateAccessTokenResponseView {
            user_id: self.user_id,
            encrypted_access_token: self.encrypted_access_token@,
        }
    }
}

/// A request that waits for the user who is to get the token.
pub struct AwaitingUser {
    pub user_id: UserId,
    pub params: CreateAccessTokenQueryParams,
}

pub struct AwaitingUserView {
    pub user_id: UserId,
    pub params: CreateAccessTokenQueryParamsView,
}

impl DeepView for AwaitingUser {
    type V = AwaitingUserView;

    open spec fn deep_view(&self) -> AwaitingUserView {
        AwaitingUserView { user_id: self.user_id, params: self.params.deep_view() }
    }
}

/// A request that waits for the user as whom an administrator wants to act.
pub struct AwaitingImpersonated {
    pub user_id: UserId,
    pub impersonate: String,
    pub public_key: String,
}

pub struct AwaitingImpersonatedView {
    pub user_id: UserId,
    pub impersonate: Seq<char>,
    pub public_key: Seq<char>,
}

impl DeepView for AwaitingImpersonated {
    type V = AwaitingImpersonatedView;

    open spec fn deep_view(&self) -> AwaitingImpersonatedView {
        AwaitingImpersonatedView {
            user_id: self.user_id,
            impersonate: self.impersonate@,
            public_key: self.public_key@,
        }
    }
}

/// A request that waits for its access token.
pub struct AwaitingToken {
    pub order: NewAccessToken,
    pub public_key: String,
}

pub struct AwaitingTokenView {
    pub order: NewAccessToken,
    pub public_key: Seq<char>,
}

impl DeepView for AwaitingToken {
    type V = AwaitingTokenView;

    open spec fn deep_view(&self) -> AwaitingTokenView {
        AwaitingTokenView { order: self.order, public_key: self.public_key@ }
    }
}

/// A request that waits for its access token to be encrypted.
pub struct AwaitingEncryption {
    pub order: NewAccessToken,
}

impl DeepView for AwaitingEncryption {
    type V = AwaitingEncryption;

    open spec fn deep_view(&self) -> AwaitingEncryption {
        *self
    }
}

/// What is to be done once the user is known who is to get the token.
pub enum AfterUser {
    /// Find the user who has this GitHub login.
    FindImpersonated(AwaitingImpersonated, String),
    /// Make the access token.
    CreateToken(AwaitingToken, NewAccessToken),
}

pub enum AfterUserView {
    FindImpersonated(AwaitingImpersonatedView, Seq<char>),
    CreateToken(AwaitingTokenView, NewAccessToken),
}

impl DeepView for AfterUser {
    type V = AfterUserView;

    open spec fn deep_view(&self) -> AfterUserView {
        match self {
            AfterUser::FindImpersonated(request, github_login) => AfterUserView::FindImpersonated(
                request.deep_view(),
                github_login@,
            ),
            AfterUser::CreateToken(request, order) => AfterUserView::CreateToken(
                request.deep_view(),
                *order,
            ),
        }
    }
}

/// The first step of a request for an access token: the user is to be found who is to get it.
pub fn create_access_token(user_id: UserId, params: CreateAccessTokenQueryParams) -> (next: (
    AwaitingUser,
    UserId,
))
    ensures
        next.0.deep_view() == (AwaitingUserView { user_id, params: params.deep_view() }),
        next.1 == user_id,
        next.0.user_id == user_id,
        next.0.params == params,
{
    (AwaitingUser { user_id, params }, user_id)
}

impl AwaitingUserView {
    /// Only an administrator may act as another user; anybody gets a token for themselves.
    pub open spec fn user_found(self, reply: Result<Option<User>, ErrorView>) -> Result<
        AfterUserView,
        ErrorView,
    > {
        match reply {
            Err(error) => Err(error),
            Ok(None) => Err(ErrorView::Internal("user not found"@)),
            Ok(Some(user)) => match self.params.impersonate {
                None => {
                    let order = NewAccessToken {
                        user_id: self.user_id,
                        impersonated_user_id: None,
                    };
                    Ok(
                        AfterUserView::CreateToken(
                            AwaitingTokenView { order, public_key: self.params.public_key },
                            order,
                        ),
                    )
                },
                Some(login) => if user.admin {
                    Ok(
                        AfterUserView::FindImpersonated(
                            AwaitingImpersonatedView {
                                user_id: self.user_id,
                                impersonate: login,
                                public_key: self.params.public_key,
                            },
                            login,
                        ),
                    )
                } else {
                    Err(
                        ErrorView::Http(
                            StatusCode::Unauthorized,
                            "you do not have permission to impersonate other users"@,
                        ),
                    )
                },
            },
        }
    }
}

impl AwaitingUser {
    /// Goes on with what the database found under the user's key.
    pub fn user_found(self, reply: Result<Option<User>, Error>) -> (next: Result<AfterUser, Error>)
        ensures
            outcome(next) == self.deep_view().user_found(outcome(reply)),
            reply matches Err(error) ==> next == Err::<AfterUser, Error>(error),
            reply matches Ok(None) ==> {
                &&& next matches Err(Error::Internal(cause))
                &&& cause@ == "user not found"@
            },
            reply matches Ok(Some(user)) ==> match self.params.impersonate {
                None => {
                    &&& next matches Ok(AfterUser::CreateToken(waiting, order))
                    &&& order.user_id == self.user_id
                    &&& order.impersonated_user_id is None
                    &&& waiting.order == order
                    &&& waiting.public_key == self.params.public_key
                },
                Some(login) => if user.admin {
                    &&& next matches Ok(AfterUser::FindImpersonated(waiting, asked))
                    &&& asked == login
                    &&& waiting.user_id == self.user_id
                    &&& waiting.impersonate@ == login@
                    &&& waiting.public_key == self.params.public_key
                } else {
                    &&& next matches Err(Error::Http(status, message))
                    &&& status == StatusCode::Unauthorized
                    &&& message@ == "you do not have permission to impersonate other users"@
                },
            },
    {
        let user = match reply {
            Ok(Some(user)) => user,
            Ok(None) => {
                return Err(Error::internal("user not found"));
            },
            Err(error) => {
                return Err(error);
            },
        };
        match self.params.impersonate {
            None => {
                let order = NewAccessToken { user_id: self.user_id, impersonated_user_id: None };
                Ok(
                    AfterUser::CreateToken(
                        AwaitingToken { order, public_key: self.params.public_key },
                        order,
                    ),
                )
            },
            Some(login) => {
                if user.admin {
                    let impersonate = login.clone();
                    Ok(
                        AfterUser::FindImpersonated(
                            AwaitingImpersonated {
                                user_id: self.user_id,
                                impersonate,
                                public_key: self.params.public_key,
                            },
                            login,
                        ),
                    )
                } else {
                    Err(
                        Error::http(
                            StatusCode::Unauthorized,
                            "you do not have permission to impersonate other users",
                        ),
                    )
                }
            },
        }
    }
}

impl AwaitingImpersonatedView {
    /// The token is made for the administrator, to act as the user who was found.
    pub open spec fn impersonated_found(self, reply: Result<Option<User>, ErrorView>) -> Result<
        (AwaitingTokenView, NewAccessToken),
        ErrorView,
    > {
        match reply {
            Err(error) => Err(error),
            Ok(None) => Err(
                ErrorView::Http(
                    StatusCode::UnprocessableEntity,
                    "user "@ + self.impersonate + " does not exist"@,
                ),
            ),
            Ok(Some(user)) => {
                let order = NewAccessToken {
                    user_id: self.user_id,
                    impersonated_user_id: Some(user.id),
                };
                Ok((AwaitingTokenView { order, public_key: self.public_key }, order))
            },
        }
    }
}

impl AwaitingImpersonated {
    /// Goes on with what the database found under the GitHub login.
    pub fn impersonated_found(self, reply: Result<Option<User>, Error>) -> (next: Result<
        (AwaitingToken, NewAccessToken),
        Error,
    >)
        ensures
            outcome(next) == self.deep_view().impersonated_found(outcome(reply)),
            reply matches Err(error) ==> next == Err::<(AwaitingToken, NewAccessToken), Error>(
                error,
            ),
            reply matches Ok(None) ==> {
                &&& next matches Err(Error::Http(status, message))
                &&& status == StatusCode::UnprocessableEntity
                &&& message@ == "user "@ + self.impersonate@ + " does not exist"@
            },
            reply matches Ok(Some(user)) ==> {
                &&& next matches Ok((waiting, order))
                &&& order.user_id == self.user_id
                &&& order.impersonated_user_id == Some(user.id)
                &&& waiting.order == order
                &&& waiting.public_key == self.public_key
            },
    {
        match reply {
            Ok(Some(user)) => {
                let order = NewAccessToken {
                    user_id: self.user_id,
                    impersonated_user_id: Some(user.id),
                };
                Ok((AwaitingToken { order, public_key: self.public_key }, order))
            },
            Ok(None) => {
                let mut message = "user ".to_owned();
                message.append(self.impersonate.as_str());
                message.append(" does not exist");
                Err(Error::http(StatusCode::UnprocessableEntity, message.as_str()))
            },
            Err(error) => Err(error),
        }
    }
}

impl AwaitingTokenView {
    pub open spec fn token_created(self, reply: Result<Seq<char>, ErrorView>) -> Result<
        (AwaitingEncryption, TokenEncryptionView),
        ErrorView,
    > {
        match reply {
            Err(error) => Err(error),
            Ok(access_token) => Ok(
                (
                    AwaitingEncryption { order: self.order },
                    TokenEncryptionView { access_token, public_key: self.public_key },
                ),
            ),
        }
    }
}

impl AwaitingToken {
    /// Goes on with the access token that was made: it is encrypted for the requester's key.
    pub fn token_created(self, reply: Result<String, Error>) -> (next: Result<
        (AwaitingEncryption, TokenEncryption),
        Error,
    >)
        ensures
            outcome(next) == self.deep_view().token_created(outcome(reply)),
            reply matches Err(error) ==> next == Err::<(AwaitingEncryption, TokenEncryption), Error>(
                error,
            ),
            reply matches Ok(access_token) ==> {
                &&& next matches Ok((waiting, encryption))
                &&& waiting.order == self.order
                &&& encryption.access_token == access_token
                &&& encryption.public_key == self.public_key
            },
    {
        match reply {
            Ok(access_token) => Ok(
                (
                    AwaitingEncryption { order: self.order },
                    TokenEncryption { access_token, public_key: self.public_key },
                ),
            ),
            Err(error) => Err(error),
        }
    }
}

impl AwaitingEncryption {
    /// The answer names the user as whom the token's bearer acts.
    pub open spec fn answer(self, reply: Result<Seq<char>, ErrorView>) -> Result<
        CreateAccessTokenResponseView,
        ErrorView,
    > {
        match reply {
            Err(error) => Err(error),
            Ok(encrypted_access_token) => Ok(
                CreateAccessTokenResponseView {
                    user_id: match self.order.impersonated_user_id {
                        Some(impersonated) => impersonated,
                        None => self.order.user_id,
                    },
                    encrypted_access_token,
                },
            ),
        }
    }

    /// Answers the request with the encrypted access token.
    pub fn token_encrypted(self, reply: Result<String, Error>) -> (response: Result<
        CreateAccessTokenResponse,
        Error,
    >)
        ensures
            outcome(response) == self.answer(outcome(reply)),
            reply matches Err(error) ==> response == Err::<CreateAccessTokenResponse, Error>(error),
            reply matches Ok(encrypted) ==> {
                &&& response matches Ok(answer)
                &&& answer.encrypted_access_token == encrypted
                &&& self.order.impersonated_user_id matches Some(acted_as) ==> answer.user_id
                    == acted_as
                &&& self.order.impersonated_user_id is None ==> answer.user_id
                    == self.order.user_id
            },
    {
        match reply {
            Ok(encrypted_access_token) => Ok(
                CreateAccessTokenResponse {
                    user_id: self.order.impersonated_user_id.unwrap_or(self.order.user_id),
                    encrypted_access_token,
                },
            ),
            Err(error) => Err(error),
        }
    }
}

/// The replies that a request for an access token may get on its way.
pub struct AccessTokenReplies {
    /// Who the database has under the key of the user who is to get the token.
    pub user: Result<Option<User>, ErrorView>,
    /// Who the database has under the GitHub login to act as.
    pub impersonated: Result<Option<User>, ErrorView>,
    pub token: Result<Seq<char>, ErrorView>,
    pub encrypted: Result<Seq<char>, ErrorView>,
}

/// The order for an access token to which a request leads, or its refusal.
pub open spec fn ordered_token(
    user_id: UserId,
    params: CreateAccessTokenQueryParamsView,
    replies: AccessTokenReplies,
) -> Result<(AwaitingTokenView, NewAccessToken), ErrorView> {
    match (AwaitingUserView { user_id, params }).user_found(replies.user) {
        Err(error) => Err(error),
        Ok(AfterUserView::CreateToken(request, order)) => Ok((request, order)),
        Ok(AfterUserView::FindImpersonated(request, _)) => request.impersonated_found(
            replies.impersonated,
        ),
    }
}

/// What a request for an access token is answered in the end.
pub open spec fn access_token_answer(
    user_id: UserId,
    params: CreateAccessTokenQueryParamsView,
    replies: AccessTokenReplies,
) -> Result<CreateAccessTokenResponseView, ErrorView> {
    match ordered_token(user_id, params, replies) {
        Err(error) => Err(error),
        Ok((request, _)) => match request.token_created(replies.token) {
            Err(error) => Err(error),
            Ok((request, _)) => request.answer(replies.encrypted),
        },
    }
}

/// A token to act as somebody else is ordered only for an administrator who asked for it, and for
/// the user who has the login that was asked for. Every other token is the user's own.
pub proof fn only_administrators_impersonate(
    user_id: UserId,
    params: CreateAccessTokenQueryParamsView,
    replies: AccessTokenReplies,
)
    ensures
        ordered_token(user_id, params, replies) matches Ok((_, order)) ==> {
            &&& order.user_id == user_id
            &&& replies.user matches Ok(Some(user))
            &&& match order.impersonated_user_id {
                Some(impersonated) => {
                    &&& user.admin
                    &&& params.impersonate is Some
                    &&& replies.impersonated matches Ok(Some(found))
                    &&& found.id == impersonated
                },
                None => params.impersonate is None,
            }
        },
{
}

/// The database is asked for exactly the login that an administrator wants to act under.
pub proof fn the_named_user_is_looked_up(
    user_id: UserId,
    params: CreateAccessTokenQueryParamsView,
    reply: Result<Option<User>, ErrorView>,
)
    ensures
        (AwaitingUserView { user_id, params }).user_found(reply) matches Ok(
            AfterUserView::FindImpersonated(_, login),
        ) ==> params.impersonate == Some(login),
{
}

/// The answer names the user as whom the ordered token lets its bearer act, and the token that it
/// holds was encrypted for the key in the request.
pub proof fn the_answer_fits_the_ordered_token(
    user_id: UserId,
    params: CreateAccessTokenQueryParamsView,
    replies: AccessTokenReplies,
)
    ensures
        access_token_answer(user_id, params, replies) matches Ok(response) ==> {
            &&& ordered_token(user_id, params, replies) matches Ok((request, order))
            &&& response.user_id == (match order.impersonated_user_id {
                Some(impersonated) => impersonated,
                None => order.user_id,
            })
            &&& request.token_created(replies.token) matches Ok((_, encryption))
            &&& encryption.public_key == params.public_key
            &&& replies.token == Ok::<Seq<char>, ErrorView>(encryption.access_token)
            &&& replies.encrypted == Ok::<Seq<char>, ErrorView>(response.encrypted_access_token)
        },
{
}

/// A user who asks for a token of their own gets one whether they are an administrator or not.
pub proof fn everybody_gets_their_own_token(
    user_id: UserId,
    params: CreateAccessTokenQueryParamsView,
    replies: AccessTokenReplies,
)
    requires
        params.impersonate is None,
        replies.user matches Ok(Some(_)),
        replies.token is Ok,
        replies.encrypted is Ok,
    ensures
        access_token_answer(user_id, params, replies) == Ok::<
            CreateAccessTokenResponseView,
            ErrorView,
        >(
            CreateAccessTokenResponseView {
                user_id,
                encrypted_access_token: replies.encrypted->Ok_0,
            },
        ),
{
}

/// A call that fails ends the request, which is answered with that failure.
pub proof fn a_failed_call_is_answered_as_it_failed(
    user_id: UserId,
    params: CreateAccessTokenQueryParamsView,
    replies: AccessTokenReplies,
)
    ensures
        replies.user matches Err(error) ==> access_token_answer(user_id, params, replies) == Err::<
            CreateAccessTokenResponseView,
            ErrorView,
        >(error),
        (replies.user matches Ok(Some(user)) && user.admin && params.impersonate is Some) ==> (
        replies.impersonated matches Err(error) ==> access_token_answer(user_id, params, replies)
            == Err::<CreateAccessTokenResponseView, ErrorView>(error)),
        ordered_token(user_id, params, replies) matches Err(error) ==> access_token_answer(
            user_id,
            params,
            replies,
        ) == Err::<CreateAccessTokenResponseView, ErrorView>(error),
        ordered_token(user_id, params, replies) is Ok ==> (replies.token matches Err(error)
            ==> access_token_answer(user_id, params, replies) == Err::<
            CreateAccessTokenResponseView,
            ErrorView,
        >(error)),
        ordered_token(user_id, params, replies) is Ok && replies.token is Ok ==> (
        replies.encrypted matches Err(error) ==> access_token_answer(user_id, params, replies)
            == Err::<CreateAccessTokenResponseView, ErrorView>(error)),
{
}

/// An administrator who names a user gets a token to act as that user, whoever that is: another
/// administrator, somebody who is none, or the administrator themselves.
pub proof fn an_administrator_acts_as_whomever_they_name(
    user_id: UserId,
    params: CreateAccessTokenQueryParamsView,
    replies: AccessTokenReplies,
    found: User,
)
    requires
        replies.user matches Ok(Some(user)) && user.admin,
        params.impersonate is Some,
        replies.impersonated == Ok::<Option<User>, ErrorView>(Some(found)),
    ensures
        ordered_token(user_id, params, replies) matches Ok((request, order)) && {
            &&& order.user_id == user_id
            &&& order.impersonated_user_id == Some(found.id)
            &&& request.order == order
            &&& request.public_key == params.public_key
        },
        replies.token is Ok ==> (replies.encrypted matches Ok(encrypted) ==> {
            &&& access_token_answer(user_id, params, replies) matches Ok(response)
            &&& response.user_id == found.id
            &&& response.encrypted_access_token == encrypted
        }),
{
}

/// A user who names nobody gets a token of their own, and nobody else is looked up for it.
pub proof fn a_user_who_names_nobody_acts_as_themselves(
    user_id: UserId,
    params: CreateAccessTokenQueryParamsView,
    replies: AccessTokenReplies,
    user: User,
)
    requires
        replies.user == Ok::<Option<User>, ErrorView>(Some(user)),
        params.impersonate is None,
    ensures
        ordered_token(user_id, params, replies) matches Ok((request, order)) && {
            &&& order.user_id == user_id
            &&& order.impersonated_user_id is None
            &&& request.order == order
            &&& request.public_key == params.public_key
        },
        (AwaitingUserView { user_id, params }).user_found(replies.user) matches Ok(
            AfterUserView::CreateToken(_, _),
        ),
        replies.token is Ok ==> (replies.encrypted matches Ok(encrypted) ==> {
            &&& access_token_answer(user_id, params, replies) matches Ok(response)
            &&& response.user_id == user_id
            &&& response.encrypted_access_token == encrypted
        }),
{
}

/// Who gets no token although every call succeeds: somebody who is not in the database, somebody
/// who names a user and is no administrator, and an administrator who names nobody in the database.
pub proof fn who_is_refused_a_token(
    user_id: UserId,
    params: CreateAccessTokenQueryParamsView,
    replies: AccessTokenReplies,
)
    ensures
        replies.user matches Ok(None) ==> access_token_answer(user_id, params, replies) == Err::<
            CreateAccessTokenResponseView,
            ErrorView,
        >(ErrorView::Internal("user not found"@)),
        (replies.user matches Ok(Some(user)) && !user.admin && params.impersonate is Some)
            ==> access_token_answer(user_id, params, replies) == Err::<
            CreateAccessTokenResponseView,
            ErrorView,
        >(
            ErrorView::Http(
                StatusCode::Unauthorized,
                "you do not have permission to impersonate other users"@,
            ),
        ),
        (replies.user matches Ok(Some(user)) && user.admin && replies.impersonated matches Ok(None))
            ==> (params.impersonate matches Some(login) ==> access_token_answer(
            user_id,
            params,
            replies,
        ) == Err::<CreateAccessTokenResponseView, ErrorView>(
            ErrorView::Http(
                StatusCode::UnprocessableEntity,
                "user "@ + login + " does not exist"@,
            ),
        )),
{
}

/// The request of an administrator who names a user waits for that user, with all that it says.
pub proof fn an_administrators_request_waits_for_whom_it_names(
    user_id: UserId,
    params: CreateAccessTokenQueryParamsView,
    user: User,
    login: Seq<char>,
)
    requires
        user.admin,
        params.impersonate == Some(login),
    ensures
        (AwaitingUserView { user_id, params }).user_found(Ok(Some(user))) matches Ok(
            AfterUserView::FindImpersonated(request, asked),
        ) && {
            &&& asked == login
            &&& request.user_id == user_id
            &&& request.impersonate == login
            &&& request.public_key == params.public_key
        },
{
}

/// The token that was made is encrypted as it is, for the key of the request, and the answer holds
/// what came of that as it is.
pub proof fn the_made_token_is_handed_on_unchanged(
    request: AwaitingTokenView,
    access_token: Seq<char>,
    encrypted: Seq<char>,
)
    ensures
        request.token_created(Ok(access_token)) matches Ok((next, encryption)) && {
            &&& next.order == request.order
            &&& encryption.access_token == access_token
            &&& encryption.public_key == request.public_key
            &&& next.answer(Ok(encrypted)) matches Ok(response)
            &&& response.encrypted_access_token == encrypted
            &&& request.order.impersonated_user_id matches Some(acted_as) ==> response.user_id
                == acted_as
            &&& request.order.impersonated_user_id is None ==> response.user_id
                == request.order.user_id
        },
{
}

} // verus!
