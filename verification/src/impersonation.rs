//! Access tokens for any user, given to callers who hold the API token.

use crate::accounts::{NewAccessToken, User, UserId};
use crate::error::{Error, ErrorView, StatusCode, outcome};
use vstd::prelude::*;

verus! {

/// What a request to act as a user says.
pub struct ImpersonateUserRequest {
    /// Who the user is: a GitHub login, an AFFiNE identifier or an email address.
    pub github_login: String,
}

/// The answer to a request to act as a user.
pub struct ImpersonateUserResponse {
    pub user_id: u64,
    pub access_token: String,
}

pub struct ImpersonateUserResponseView {
    pub user_id: u64,
    pub access_token: Seq<char>,
}

impl DeepView for ImpersonateUserResponse {
    type V = ImpersonateUserResponseView;

    open spec fn deep_view(&self) -> ImpersonateUserResponseView {
        ImpersonateUserResponseView { user_id: self.user_id, access_token: self.access_token@ }
    }
}

/// By what the database is to look a user up.
#[derive(Debug, Clone, Copy, PartialEq, Eq, Structural)]
pub enum LookupKey {
    GithubLogin,
    AffineId,
    Email,
}

/// The order to look a user up.
pub struct UserLookup {
    pub key: LookupKey,
    pub value: String,
}

pub struct UserLookupView {
    pub key: LookupKey,
    pub value: Seq<char>,
}

impl DeepView for UserLookup {
    type V = UserLookupView;

    open spec fn deep_view(&self) -> UserLookupView {
        UserLookupView { key: self.key, value: self.value@ }
    }
}

/// A request that waits for the user whom it names to be looked up.
pub struct AwaitingUser {
    pub name: String,
    /// By what the user is looked up at present.
    pub key: LookupKey,
}

pub struct AwaitingUserView {
    pub name: Seq<char>,
    pub key: LookupKey,
}

impl DeepView for AwaitingUser {
    type V = AwaitingUserView;

    open spec fn deep_view(&self) -> AwaitingUserView {
        AwaitingUserView { name: self.name@, key: self.key }
    }
}

/// A request that waits for its access token.
pub struct AwaitingToken {
    pub user_id: UserId,
}

impl DeepView for AwaitingToken {
    type V = AwaitingToken;

    open spec fn deep_view(&self) -> AwaitingToken {
        *self
    }
}

/// What is to be done after a user was looked up.
pub enum AfterLookup {
    /// Look again, by something else.
    LookUp(AwaitingUser, UserLookup),
    /// Make the access token.
    CreateToken(AwaitingToken, NewAccessToken),
}

pub enum AfterLookupView {
    LookUp(AwaitingUserView, UserLookupView),
    CreateToken(AwaitingToken, NewAccessToken),
}

impl DeepView for AfterLookup {
    type V = AfterLookupView;

    open spec fn deep_view(&self) -> AfterLookupView {
        match self {
            AfterLookup::LookUp(request, lookup) => AfterLookupView::LookUp(
                request.deep_view(),
                lookup.deep_view(),
            ),
            AfterLookup::CreateToken(request, order) => AfterLookupView::CreateToken(
                *request,
                *order,
            ),
        }
    }
}

/// A request to act as `name`, with the lookup by `key` that it waits for.
pub open spec fn looking_up(name: Seq<char>, key: LookupKey) -> (AwaitingUserView, UserLookupView) {
    (AwaitingUserView { name, key }, UserLookupView { key, value: name })
}

fn look_up(name: String, key: LookupKey) -> (next: (AwaitingUser, UserLookup))
    ensures
        next.deep_view() == looking_up(name@, key),
        next.0.name == name,
        next.0.key == key,
        next.1.value@ == name@,
        next.1.key == key,
{
    let value = name.clone();
    (AwaitingUser { name, key }, UserLookup { key, value })
}

/// The first step of a request to act as a user: the user is looked up by GitHub login.
pub fn impersonate_user(request: ImpersonateUserRequest) -> (next: (AwaitingUser, UserLookup))
    ensures
        next.deep_view() == looking_up(request.github_login@, LookupKey::GithubLogin),
        next.0.name == request.github_login,
        next.0.key == LookupKey::GithubLogin,
        next.1.value@ == request.github_login@,
        next.1.key == LookupKey::GithubLogin,
{
    look_up(request.github_login, LookupKey::GithubLogin)
}

impl LookupKey {
    /// By what to look next for a user who was not found.
    pub open spec fn next(self) -> Option<LookupKey> {
        match self {
            LookupKey::GithubLogin => Some(LookupKey::AffineId),
            LookupKey::AffineId => Some(LookupKey::Email),
            LookupKey::Email => None,
        }
    }
}

impl AwaitingUserView {
    /// A user who is not found by GitHub login is looked up by AFFiNE identifier, and then by
    /// email address.
    pub open spec fn user_looked_up(self, reply: Result<Option<User>, ErrorView>) -> Result<
        AfterLookupView,
        ErrorView,
    > {
        match (reply, self.key.next()) {
            (Err(error), _) => Err(error),
            (Ok(Some(user)), _) => Ok(
                AfterLookupView::CreateToken(
                    AwaitingToken { user_id: user.id },
                    NewAccessToken { user_id: user.id, impersonated_user_id: None },
                ),
            ),
            (Ok(None), Some(key)) => {
                let (request, lookup) = looking_up(self.name, key);
                Ok(AfterLookupView::LookUp(request, lookup))
            },
            (Ok(None), None) => Err(
                ErrorView::Http(StatusCode::NotFound, "user "@ + self.name + " not found"@),
            ),
        }
    }
}

impl AwaitingUser {
    /// Goes on with what the database found.
    pub fn user_looked_up(self, reply: Result<Option<User>, Error>) -> (next: Result<
        AfterLookup,
        Error,
    >)
        ensures
            outcome(next) == self.deep_view().user_looked_up(outcome(reply)),
            reply matches Err(error) ==> next == Err::<AfterLookup, Error>(error),
            reply matches Ok(Some(user)) ==> {
                &&& next matches Ok(AfterLookup::CreateToken(waiting, order))
                &&& waiting.user_id == user.id
                &&& order.user_id == user.id
                &&& order.impersonated_user_id is None
            },
            reply matches Ok(None) && self.key == LookupKey::Email ==> {
                &&& next matches Err(Error::Http(status, message))
                &&& status == StatusCode::NotFound
                &&& message@ == "user "@ + self.name@ + " not found"@
            },
            reply matches Ok(None) && self.key != LookupKey::Email ==> {
                &&& next matches Ok(AfterLookup::LookUp(waiting, lookup))
                &&& waiting.name == self.name
                &&& lookup.value@ == self.name@
                &&& lookup.key == waiting.key
                &&& self.key == LookupKey::GithubLogin ==> waiting.key == LookupKey::AffineId
                &&& self.key == LookupKey::AffineId ==> waiting.key == LookupKey::Email
            },
    {
        match reply {
            Ok(Some(user)) => Ok(
                AfterLookup::CreateToken(
                    AwaitingToken { user_id: user.id },
                    NewAccessToken { user_id: user.id, impersonated_user_id: None },
                ),
            ),
            Ok(None) => {
                let key = match self.key {
                    LookupKey::GithubLogin => LookupKey::AffineId,
                    LookupKey::AffineId => LookupKey::Email,
                    LookupKey::Email => {
                        let mut message = "user ".to_owned();
                        message.append(self.name.as_str());
                        message.append(" not found");
                        return Err(Error::http(StatusCode::NotFound, message.as_str()));
                    },
                };
                let (request, lookup) = look_up(self.name, key);
                Ok(AfterLookup::LookUp(request, lookup))
            },
            Err(error) => Err(error),
        }
    }
}

/// The number by which an answer names a user: the user's key, which wraps around at 64 bits
/// where it is negative.
pub open spec fn wire_user_id(user_id: UserId) -> int {
    if user_id.0 < 0 {
        user_id.0 + 0x1_0000_0000_0000_0000
    } else {
        user_id.0 as int
    }
}

impl AwaitingToken {
    /// The answer to the request.
    pub open spec fn answer(self, reply: Result<Seq<char>, ErrorView>) -> Result<
        ImpersonateUserResponseView,
        ErrorView,
    > {
        match reply {
            Err(error) => Err(error),
            Ok(access_token) => Ok(
                ImpersonateUserResponseView {
                    user_id: wire_user_id(self.user_id) as u64,
                    access_token,
                },
            ),
        }
    }

    /// Answers the request with the access token that was made.
    pub fn token_created(self, reply: Result<String, Error>) -> (response: Result<
        ImpersonateUserResponse,
        Error,
    >)
        ensures
            outcome(response) == self.answer(outcome(reply)),
            reply matches Err(error) ==> response == Err::<ImpersonateUserResponse, Error>(error),
            reply matches Ok(access_token) ==> {
                &&& response matches Ok(answer)
                &&& answer.access_token == access_token
                &&& self.user_id.0 >= 0 ==> answer.user_id == self.user_id.0
                &&& self.user_id.0 < 0 ==> answer.user_id == self.user_id.0
                    + 0x1_0000_0000_0000_0000
            },
    {
        match reply {
            Ok(access_token) => {
                let id: i32 = self.user_id.0;
                let user_id: u64 = id as u64;
                assert(id < 0 ==> id as u64 == id + 0x1_0000_0000_0000_0000) by (bit_vector);
                Ok(ImpersonateUserResponse { user_id, access_token })
            },
            Err(error) => Err(error),
        }
    }
}

/// What a request to act as `name` is answered in the end, where `found` is what the database finds
/// by each key.
pub open spec fn impersonation_answer(
    request: AwaitingUserView,
    found: spec_fn(LookupKey) -> Result<Option<User>, ErrorView>,
    token: Result<Seq<char>, ErrorView>,
) -> Result<ImpersonateUserResponseView, ErrorView>
    decreases (match request.key {
        LookupKey::GithubLogin => 2int,
        LookupKey::AffineId => 1int,
        LookupKey::Email => 0int,
    }),
{
    match request.user_looked_up(found(request.key)) {
        Err(error) => Err(error),
        Ok(AfterLookupView::LookUp(next, _)) => impersonation_answer(next, found, token),
        Ok(AfterLookupView::CreateToken(next, _)) => next.answer(token),
    }
}

/// A request to act as somebody is answered with a token of the user who has that name as GitHub
/// login, or else as AFFiNE identifier, or else as email address; where nobody has it, nobody is
/// found. A lookup that fails ends the request.
pub proof fn github_login_goes_before_affine_id_and_email(
    name: Seq<char>,
    found: spec_fn(LookupKey) -> Result<Option<User>, ErrorView>,
    token: Result<Seq<char>, ErrorView>,
)
    ensures
        ({
            let (request, _) = looking_up(name, LookupKey::GithubLogin);
            impersonation_answer(request, found, token) == match (
                found(LookupKey::GithubLogin),
                found(LookupKey::AffineId),
                found(LookupKey::Email),
            ) {
                (Ok(Some(user)), _, _) => (AwaitingToken { user_id: user.id }).answer(token),
                (Ok(None), Ok(Some(user)), _) => (AwaitingToken { user_id: user.id }).answer(token),
                (Ok(None), Ok(None), Ok(Some(user))) => (AwaitingToken { user_id: user.id }).answer(
                    token,
                ),
                (Ok(None), Ok(None), Ok(None)) => Err(
                    ErrorView::Http(StatusCode::NotFound, "user "@ + name + " not found"@),
                ),
                (Err(error), _, _) => Err(error),
                (Ok(None), Err(error), _) => Err(error),
                (Ok(None), Ok(None), Err(error)) => Err(error),
            }
        }),
{
    reveal_with_fuel(impersonation_answer, 3);
}

/// Every lookup is for the name that the request gave.
pub proof fn every_lookup_is_for_the_same_name(
    request: AwaitingUserView,
    reply: Result<Option<User>, ErrorView>,
)
    ensures
        request.user_looked_up(reply) matches Ok(AfterLookupView::LookUp(next, lookup)) ==> {
            &&& next.name == request.name
            &&& lookup.value == request.name
            &&& lookup.key == next.key
        },
{
}

/// Different users have different numbers in answers, and each number fits in 64 bits.
pub proof fn wire_user_ids_are_distinct(a: UserId, b: UserId)
    ensures
        0 <= wire_user_id(a) <= u64::MAX,
        wire_user_id(a) == wire_user_id(b) ==> a == b,
{
}

/// Whether an answer names `user`, by the user's key or, where that is negative, by what follows
/// from it at 64 bits, and holds `access_token` as it is.
pub open spec fn hands_out(
    answer: Result<ImpersonateUserResponseView, ErrorView>,
    user: UserId,
    access_token: Seq<char>,
) -> bool {
    &&& answer matches Ok(response)
    &&& response.access_token == access_token
    &&& user.0 >= 0 ==> response.user_id == user.0
    &&& user.0 < 0 ==> response.user_id == user.0 + 0x1_0000_0000_0000_0000
}

/// The token that was made is handed out as it is, whatever it holds, with the number of the user
/// for whom it was made; where none could be made, the failure is answered.
pub proof fn the_made_token_is_handed_out_unchanged(
    request: AwaitingToken,
    access_token: Seq<char>,
    error: ErrorView,
)
    ensures
        hands_out(request.answer(Ok(access_token)), request.user_id, access_token),
        request.answer(Err(error)) matches Err(given) && given == error,
{
}

/// The token is made for the user who was found, by whatever they were found, and is their own.
pub proof fn the_token_is_made_for_the_user_who_was_found(request: AwaitingUserView, user: User)
    ensures
        request.user_looked_up(Ok(Some(user))) matches Ok(
            AfterLookupView::CreateToken(next, order),
        ) && {
            &&& next.user_id == user.id
            &&& order.user_id == user.id
            &&& order.impersonated_user_id is None
        },
{
}

/// A user who is not found by GitHub login is looked up by AFFiNE identifier; one who is not found
/// by that, by email address; one who is not found by that either is reported by name. A lookup
/// that fails ends the request.
pub proof fn where_a_user_is_looked_for_next(name: Seq<char>, error: ErrorView)
    ensures
        (AwaitingUserView { name, key: LookupKey::GithubLogin }).user_looked_up(Ok(None)) matches Ok(
            AfterLookupView::LookUp(next, lookup),
        ) && {
            &&& next.name == name
            &&& next.key == LookupKey::AffineId
            &&& lookup.value == name
            &&& lookup.key == LookupKey::AffineId
        },
        (AwaitingUserView { name, key: LookupKey::AffineId }).user_looked_up(Ok(None)) matches Ok(
            AfterLookupView::LookUp(next, lookup),
        ) && {
            &&& next.name == name
            &&& next.key == LookupKey::Email
            &&& lookup.value == name
            &&& lookup.key == LookupKey::Email
        },
        (AwaitingUserView { name, key: LookupKey::Email }).user_looked_up(Ok(None)) matches Err(
            ErrorView::Http(status, message),
        ) && {
            &&& status == StatusCode::NotFound
            &&& message == "user "@ + name + " not found"@
        },
        forall|key: LookupKey|
            #[trigger] (AwaitingUserView { name, key }).user_looked_up(Err(error)) == Err::<
                AfterLookupView,
                ErrorView,
            >(error),
{
}

/// Whoever is found first under a name is handed a token of their own as it was made: by GitHub
/// login, or else by AFFiNE identifier, or else by email address.
pub proof fn the_first_user_found_is_handed_the_token(
    name: Seq<char>,
    found: spec_fn(LookupKey) -> Result<Option<User>, ErrorView>,
    user: User,
    access_token: Seq<char>,
)
    requires
        ({
            ||| found(LookupKey::GithubLogin) == Ok::<Option<User>, ErrorView>(Some(user))
            ||| {
                &&& found(LookupKey::GithubLogin) == Ok::<Option<User>, ErrorView>(None)
                &&& found(LookupKey::AffineId) == Ok::<Option<User>, ErrorView>(Some(user))
            }
            ||| {
                &&& found(LookupKey::GithubLogin) == Ok::<Option<User>, ErrorView>(None)
                &&& found(LookupKey::AffineId) == Ok::<Option<User>, ErrorView>(None)
                &&& found(LookupKey::Email) == Ok::<Option<User>, ErrorView>(Some(user))
            }
        }),
    ensures
        hands_out(
            impersonation_answer(
                AwaitingUserView { name, key: LookupKey::GithubLogin },
                found,
                Ok(access_token),
            ),
            user.id,
            access_token,
        ),
{
    reveal_with_fuel(impersonation_answer, 3);
}

} // verus!
