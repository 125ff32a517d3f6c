//! The end of a browser sign-in: the native app is handed an access token.

use crate::accounts::{NewAccessToken, TokenEncryption, TokenEncryptionView, UserId};
use crate::error::{Error, ErrorView, outcome};
use crate::headers::is_text_byte;
use crate::native_app::{NativeApp, NativeAppView};
use crate::text::{
    append_decimal, append_signed_decimal, decimal, decimal_is_read_back, signed_decimal,
};
use crate::url::{
    encode, encoded_text_is_read_back, encoded_text_is_url_safe, encoded_text_stands_for_the_text,
    is_url_safe, query_value, stands_for, url_encoded,
};
use vstd::prelude::*;
use vstd::utf8::{decode_utf8, encode_utf8_decode_utf8};

verus! {

/// A sign-in that waits for the database to say which user it is that signed in.
pub struct AwaitingUser {
    pub app: NativeApp,
}

pub struct AwaitingUserView {
    pub app: NativeAppView,
}

impl DeepView for AwaitingUser {
    type V = AwaitingUserView;

    open spec fn deep_view(&self) -> AwaitingUserView {
        AwaitingUserView { app: self.app.deep_view() }
    }
}

/// A sign-in that waits for its access token.
pub struct AwaitingToken {
    pub app: NativeApp,
    pub user_id: UserId,
}

pub struct AwaitingTokenView {
    pub app: NativeAppView,
    pub user_id: UserId,
}

impl DeepView for AwaitingToken {
    type V = AwaitingTokenView;

    open spec fn deep_view(&self) -> AwaitingTokenView {
        AwaitingTokenView { app: self.app.deep_view(), user_id: self.user_id }
    }
}

/// A sign-in that waits for its access token to be encrypted.
pub struct AwaitingEncryption {
    pub port: u16,
    pub user_id: UserId,
}

impl DeepView for AwaitingEncryption {
    type V = AwaitingEncryption;

    open spec fn deep_view(&self) -> AwaitingEncryption {
        *self
    }
}

impl AwaitingUserView {
    /// The user gets a token of their own.
    pub open spec fn user_stored(self, reply: Result<UserId, ErrorView>) -> Result<
        (AwaitingTokenView, NewAccessToken),
        ErrorView,
    > {
        match reply {
            Err(error) => Err(error),
            Ok(user_id) => Ok(
                (
                    AwaitingTokenView { app: self.app, user_id },
                    NewAccessToken { user_id, impersonated_user_id: None },
                ),
            ),
        }
    }
}

impl AwaitingUser {
    /// Goes on with the user whom the database stored.
    pub fn user_stored(self, reply: Result<UserId, Error>) -> (next: Result<
        (AwaitingToken, NewAccessToken),
        Error,
    >)
        ensures
            outcome(next) == self.deep_view().user_stored(outcome(reply)),
            reply matches Ok(user_id) ==> {
                &&& next matches Ok((waiting, order))
                &&& waiting.app == self.app
                &&& waiting.user_id == user_id
                &&& order.user_id == user_id
                &&& order.impersonated_user_id is None
            },
            reply matches Err(error) ==> next == Err::<(AwaitingToken, NewAccessToken), Error>(
                error,
            ),
    {
        match reply {
            Ok(user_id) => Ok(
                (
                    AwaitingToken { app: self.app, user_id },
                    NewAccessToken { user_id, impersonated_user_id: None },
                ),
            ),
            Err(error) => Err(error),
        }
    }
}

impl AwaitingTokenView {
    /// The token is encrypted for the native app.
    pub open spec fn token_created(self, reply: Result<Seq<char>, ErrorView>) -> Result<
        (AwaitingEncryption, TokenEncryptionView),
        ErrorView,
    > {
        match reply {
            Err(error) => Err(error),
            Ok(access_token) => Ok(
                (
                    AwaitingEncryption { port: self.app.port, user_id: self.user_id },
                    TokenEncryptionView { access_token, public_key: self.app.public_key },
                ),
            ),
        }
    }
}

impl AwaitingToken {
    /// Goes on with the access token that was made.
    pub fn token_created(self, reply: Result<String, Error>) -> (next: Result<
        (AwaitingEncryption, TokenEncryption),
        Error,
    >)
        ensures
            outcome(next) == self.deep_view().token_created(outcome(reply)),
            reply matches Ok(access_token) ==> {
                &&& next matches Ok((waiting, encryption))
                &&& waiting.port == self.app.port
                &&& waiting.user_id == self.user_id
                &&& encryption.access_token == access_token
                &&& encryption.public_key == self.app.public_key
            },
            reply matches Err(error) ==> next == Err::<(AwaitingEncryption, TokenEncryption), Error>(
                error,
            ),
    {
        match reply {
            Ok(access_token) => Ok(
                (
                    AwaitingEncryption { port: self.app.port, user_id: self.user_id },
                    TokenEncryption { access_token, public_key: self.app.public_key },
                ),
            ),
            Err(error) => Err(error),
        }
    }
}

/// The address at which a native app, which waits at a port of the user's own machine, is handed
/// the user's key and the encrypted access token.
pub open spec fn handoff_url(
    port: u16,
    user_id: UserId,
    encrypted_access_token: Seq<char>,
) -> Seq<char> {
    "http://127.0.0.1:"@ + decimal(port as nat) + "/?user_id="@ + signed_decimal(user_id.0 as int)
        + "&access_token="@ + url_encoded(encrypted_access_token)
}

/// How a browser is to take a redirect.
#[derive(Debug, Clone, Copy, PartialEq, Eq, Structural)]
pub enum RedirectKind {
    /// Fetch the other address, whatever the request was.
    SeeOther,
    /// Repeat the request at the other address, this time.
    Temporary,
    /// Repeat the request at the other address, from now on.
    Permanent,
}

/// The answer that sends a browser to another address.
pub struct Redirect {
    pub kind: RedirectKind,
    pub location: String,
}

pub struct RedirectView {
    pub kind: RedirectKind,
    pub location: Seq<char>,
}

impl DeepView for Redirect {
    type V = RedirectView;

    open spec fn deep_view(&self) -> RedirectView {
        RedirectView { kind: self.kind, location: self.location@ }
    }
}

/// The answer that ends a sign-in: a temporary redirect to the native app.
pub open spec fn handoff_redirect(
    port: u16,
    user_id: UserId,
    encrypted_access_token: Seq<char>,
) -> RedirectView {
    RedirectView {
        kind: RedirectKind::Temporary,
        location: handoff_url(port, user_id, encrypted_access_token),
    }
}

impl AwaitingEncryption {
    /// How and where the browser is sent.
    pub open spec fn redirect(self, reply: Result<Seq<char>, ErrorView>) -> Result<
        RedirectView,
        ErrorView,
    > {
        match reply {
            Err(error) => Err(error),
            Ok(encrypted_access_token) => Ok(
                handoff_redirect(self.port, self.user_id, encrypted_access_token),
            ),
        }
    }

    /// Ends the sign-in: sends the browser to the native app with the encrypted access token.
    pub fn token_encrypted(self, reply: Result<String, Error>) -> (redirect: Result<
        Redirect,
        Error,
    >)
        ensures
            outcome(redirect) == self.redirect(outcome(reply)),
            reply matches Ok(encrypted) ==> {
                &&& redirect matches Ok(answer)
                &&& answer.kind == RedirectKind::Temporary
                &&& answer.location@ == handoff_url(self.port, self.user_id, encrypted@)
            },
            reply matches Err(error) ==> redirect == Err::<Redirect, Error>(error),
    {
        match reply {
            Ok(encrypted_access_token) => {
                let mut location = "http://127.0.0.1:".to_owned();
                append_decimal(&mut location, self.port as u64);
                location.append("/?user_id=");
                append_signed_decimal(&mut location, self.user_id.0);
                location.append("&access_token=");
                location.append(encode(encrypted_access_token.as_str()).as_str());
                Ok(Redirect { kind: RedirectKind::Temporary, location })
            },
            Err(error) => Err(error),
        }
    }
}

/// Whether every character of `text` may stand in a header value.
pub open spec fn is_header_text(text: Seq<char>) -> bool {
    forall|i: int| 0 <= i < text.len() ==> (#[trigger] text[i] as u32) < 128 && is_text_byte(
        text[i] as u8,
    )
}

/// Whatever the access token is, the address of the native app can be sent in a header.
pub proof fn handoff_url_is_header_text(
    port: u16,
    user_id: UserId,
    encrypted_access_token: Seq<char>,
)
    ensures
        is_header_text(handoff_url(port, user_id, encrypted_access_token)),
{
    reveal_strlit("http://127.0.0.1:");
    reveal_strlit("/?user_id=");
    reveal_strlit("&access_token=");
    let id = user_id.0 as int;
    decimal_is_read_back(port as nat);
    if id < 0 {
        decimal_is_read_back((-id) as nat);
        assert forall|i: int| 0 <= i < signed_decimal(id).len() implies (#[trigger] signed_decimal(
            id,
        )[i] as u32) < 128 && is_text_byte(signed_decimal(id)[i] as u8) by {
            if i > 0 {
                assert(signed_decimal(id)[i] == decimal((-id) as nat)[i - 1]);
            }
        }
    } else {
        decimal_is_read_back(id as nat);
    }
    encoded_text_is_url_safe(encrypted_access_token);
    assert(is_header_text("http://127.0.0.1:"@));
    assert(is_header_text(decimal(port as nat)));
    assert(is_header_text("/?user_id="@));
    assert(is_header_text(signed_decimal(id)));
    assert(is_header_text("&access_token="@));
    assert(is_header_text(url_encoded(encrypted_access_token))) by {
        let encoded = url_encoded(encrypted_access_token);
        assert forall|i: int| 0 <= i < encoded.len() implies (#[trigger] encoded[i] as u32) < 128
            && is_text_byte(encoded[i] as u8) by {
            assert(is_url_safe(encoded[i]));
        }
    }
}

/// The replies that a sign-in may get once it is known who signed in.
pub struct HandoffReplies {
    pub user: Result<UserId, ErrorView>,
    pub token: Result<Seq<char>, ErrorView>,
    pub encrypted: Result<Seq<char>, ErrorView>,
}

/// How and where the browser is sent in the end.
pub open spec fn handed_off(request: AwaitingUserView, replies: HandoffReplies) -> Result<
    RedirectView,
    ErrorView,
> {
    match request.user_stored(replies.user) {
        Err(error) => Err(error),
        Ok((request, _)) => match request.token_created(replies.token) {
            Err(error) => Err(error),
            Ok((request, _)) => request.redirect(replies.encrypted),
        },
    }
}

/// The app that waits is handed the user who was stored and the token that was encrypted, unless
/// something failed: then the first failure is answered.
pub proof fn the_waiting_app_is_handed_the_token(request: AwaitingUserView, replies: HandoffReplies)
    ensures
        handed_off(request, replies) == match (replies.user, replies.token, replies.encrypted) {
            (Err(error), _, _) => Err(error),
            (Ok(_), Err(error), _) => Err(error),
            (Ok(_), Ok(_), Err(error)) => Err(error),
            (Ok(user_id), Ok(_), Ok(encrypted)) => Ok(
                handoff_redirect(request.app.port, user_id, encrypted),
            ),
        },
{
}

/// The token of a sign-in is the user's own, and it is encrypted for the app that waits.
pub proof fn the_token_is_encrypted_for_the_waiting_app(
    request: AwaitingUserView,
    user: Result<UserId, ErrorView>,
    token: Result<Seq<char>, ErrorView>,
)
    ensures
        request.user_stored(user) matches Ok((next, order)) ==> {
            &&& user == Ok::<UserId, ErrorView>(order.user_id)
            &&& order.impersonated_user_id is None
            &&& next.token_created(token) matches Ok((_, encryption)) ==> {
                &&& token == Ok::<Seq<char>, ErrorView>(encryption.access_token)
                &&& encryption.public_key == request.app.public_key
            }
        },
{
}

/// The access token in the address of the native app is read back from it as the encrypted token,
/// whatever characters that holds.
pub proof fn the_app_reads_the_encrypted_token(encrypted_access_token: Seq<char>)
    ensures
        decode_utf8(query_value(url_encoded(encrypted_access_token))) == encrypted_access_token,
{
    encoded_text_is_read_back(encrypted_access_token);
    encode_utf8_decode_utf8(encrypted_access_token);
}

/// The browser is sent to the user's own machine, to the port at which the app waits.
pub proof fn the_browser_is_sent_to_the_local_port(
    port: u16,
    user_id: UserId,
    encrypted_access_token: Seq<char>,
)
    ensures
        ("http://127.0.0.1:"@ + decimal(port as nat) + "/"@).is_prefix_of(
            handoff_url(port, user_id, encrypted_access_token),
        ),
{
    reveal_strlit("/");
    reveal_strlit("/?user_id=");
    let start = "http://127.0.0.1:"@ + decimal(port as nat) + "/"@;
    let url = handoff_url(port, user_id, encrypted_access_token);
    assert(start =~= url.subrange(0, start.len() as int));
}

/// What a native app is handed: at its own port of the local machine, in decimal notation, the key
/// of the user and a value that stands for the encrypted token, whatever characters that holds.
pub proof fn what_a_native_app_is_handed(request: AwaitingEncryption, encrypted: Seq<char>)
    ensures
        request.redirect(Ok(encrypted)) matches Ok(redirect) && {
            &&& redirect.kind == RedirectKind::Temporary
            &&& exists|value: Seq<char>|
                {
                    &&& #[trigger] stands_for(value, encrypted)
                    &&& redirect.location == "http://127.0.0.1:"@ + decimal(request.port as nat)
                        + "/?user_id="@ + signed_decimal(request.user_id.0 as int)
                        + "&access_token="@ + value
                }
        },
{
    encoded_text_stands_for_the_text(encrypted);
}

/// A failure on the way to the native app is answered as it is.
pub proof fn a_failed_reply_ends_the_handoff(
    user: AwaitingUserView,
    token: AwaitingTokenView,
    encryption: AwaitingEncryption,
    error: ErrorView,
)
    ensures
        user.user_stored(Err(error)) matches Err(given) && given == error,
        token.token_created(Err(error)) matches Err(given) && given == error,
        encryption.redirect(Err(error)) matches Err(given) && given == error,
{
}

/// Every step towards the native app is taken for the same app and the same user.
pub proof fn every_step_is_for_the_same_app_and_user(
    request: AwaitingUserView,
    user_id: UserId,
    access_token: Seq<char>,
)
    ensures
        request.user_stored(Ok(user_id)) matches Ok((stored, order)) && {
            &&& stored.app == request.app
            &&& stored.user_id == user_id
            &&& order.user_id == user_id
            &&& order.impersonated_user_id is None
            &&& stored.token_created(Ok(access_token)) matches Ok((created, encryption))
            &&& created.port == request.app.port
            &&& created.user_id == user_id
            &&& encryption.access_token == access_token
            &&& encryption.public_key == request.app.public_key
        },
{
}

} // verus!
