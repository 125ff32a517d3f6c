//! Users, and the access tokens that are made for them.

use vstd::prelude::*;

verus! {

/// The key of a user in the database.
#[derive(Debug, Clone, Copy, PartialEq, Eq, Structural)]
pub struct UserId(pub i32);

impl DeepView for UserId {
    type V = UserId;

    open spec fn deep_view(&self) -> UserId {
        *self
    }
}

/// What the database knows of a user.
#[derive(Debug, Clone, Copy, PartialEq, Eq, Structural)]
pub struct User {
    pub id: UserId,
    /// Whether the user may act as somebody else.
    pub admin: bool,
}

impl DeepView for User {
    type V = User;

    open spec fn deep_view(&self) -> User {
        *self
    }
}

/// The order to make an access token.
#[derive(Debug, Clone, Copy, PartialEq, Eq, Structural)]
pub struct NewAccessToken {
    /// The user to whom the token is given.
    pub user_id: UserId,
    /// The user as whom its bearer acts, where that is somebody else.
    pub impersonated_user_id: Option<UserId>,
}

impl DeepView for NewAccessToken {
    type V = NewAccessToken;

    open spec fn deep_view(&self) -> NewAccessToken {
        *self
    }
}

/// The order to encrypt an access token.
pub struct TokenEncryption {
    pub access_token: String,
    /// The key for which the token is to be encrypted.
    pub public_key: String,
}

pub struct TokenEncryptionView {
    pub access_token: Seq<char>,
    pub public_key: Seq<char>,
}

impl DeepView for TokenEncryption {
    type V = TokenEncryptionView;

    open spec fn deep_view(&self) -> TokenEncryptionView {
        TokenEncryptionView { access_token: self.access_token@, public_key: self.public_key@ }
    }
}

} // verus!
