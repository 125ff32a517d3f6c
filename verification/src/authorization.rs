//! Who may call the server's own interface.

use crate::error::{Error, ErrorView, StatusCode, outcome};
use crate::headers::{a_header_value_spells_its_text, header_text, spells, to_str};
use crate::text::{prefix_and_rest_make_the_text, strip_prefix, stripped};
use vstd::prelude::*;

verus! {

/// The token that an `Authorization` header carries, behind `token ` or `Bearer `.
pub open spec fn presented_token(authorization: Option<Seq<u8>>) -> Result<Seq<char>, ErrorView> {
    match authorization {
        Some(value) => match header_text(value) {
            Some(text) => match (stripped(text, "token "@), stripped(text, "Bearer "@)) {
                (Some(token), _) => Ok(token),
                (None, Some(token)) => Ok(token),
                (None, None) => Err(
                    ErrorView::Http(StatusCode::BadRequest, "invalid authorization header"@),
                ),
            },
            None => Err(ErrorView::Http(StatusCode::BadRequest, "missing authorization header"@)),
        },
        None => Err(ErrorView::Http(StatusCode::BadRequest, "missing authorization header"@)),
    }
}

/// Whether a request that carries `token` is let through.
pub open spec fn token_check(token: Seq<char>, api_token: Seq<char>) -> Result<(), ErrorView> {
    if token == api_token {
        Ok(())
    } else {
        Err(ErrorView::Http(StatusCode::Unauthorized, "invalid authorization token"@))
    }
}

/// Whether a request with this `Authorization` header is let through, and what it is answered
/// where it is not.
pub open spec fn authorization_check(
    authorization: Option<Seq<u8>>,
    api_token: Seq<char>,
) -> Result<(), ErrorView> {
    match presented_token(authorization) {
        Ok(token) => token_check(token, api_token),
        Err(error) => Err(error),
    }
}

/// Takes the token out of the value of a request's `Authorization` header, if it has one.
pub fn read_token(authorization: Option<&[u8]>) -> (token: Result<String, Error>)
    ensures
        outcome(token) == presented_token(
            match authorization {
                Some(value) => Some(value@),
                None => None,
            },
        ),
{
    let header_value = match authorization {
        Some(value) => to_str(value),
        None => None,
    };
    let header_value = match header_value {
        Some(text) => text,
        None => {
            return Err(Error::http(StatusCode::BadRequest, "missing authorization header"));
        },
    };
    match strip_prefix(header_value.as_str(), "token ") {
        Some(token) => Ok(token.to_owned()),
        None => match strip_prefix(header_value.as_str(), "Bearer ") {
            Some(token) => Ok(token.to_owned()),
            None => Err(Error::http(StatusCode::BadRequest, "invalid authorization header")),
        },
    }
}

/// Decides whether a request that carries `token` may go on.
pub fn check_token(token: &str, api_token: &str) -> (verdict: Result<(), Error>)
    ensures
        outcome(verdict) == token_check(token@, api_token@),
        verdict is Ok <==> token@ == api_token@,
{
    if token.to_owned() != api_token.to_owned() {
        return Err(Error::http(StatusCode::Unauthorized, "invalid authorization token"));
    }
    Ok(())
}

/// Decides whether a request may go on to the endpoints that the API token protects, by the value
/// of its `Authorization` header, if it has one.
pub fn validate_api_token(authorization: Option<&[u8]>, api_token: &str) -> (verdict: Result<
    (),
    Error,
>)
    ensures
        outcome(verdict) == authorization_check(
            match authorization {
                Some(value) => Some(value@),
                None => None,
            },
            api_token@,
        ),
        verdict is Ok <==> {
            &&& authorization matches Some(value)
            &&& {
                ||| spells(value@, "token "@ + api_token@)
                ||| spells(value@, "Bearer "@ + api_token@)
            }
        },
{
    proof {
        only_the_api_token_is_let_through(
            match authorization {
                Some(value) => Some(value@),
                None => None,
            },
            api_token@,
        );
    }
    match read_token(authorization) {
        Ok(token) => check_token(token.as_str(), api_token),
        Err(error) => Err(error),
    }
}

/// A request is let through exactly where its `Authorization` header is the API token behind
/// `token ` or behind `Bearer `, and so where its bytes spell that.
pub proof fn only_the_api_token_is_let_through(authorization: Option<Seq<u8>>, api_token: Seq<char>)
    ensures
        authorization_check(authorization, api_token) is Ok <==> {
            &&& authorization matches Some(value)
            &&& {
                ||| header_text(value) == Some("token "@ + api_token)
                ||| header_text(value) == Some("Bearer "@ + api_token)
            }
        },
        authorization_check(authorization, api_token) is Ok <==> {
            &&& authorization matches Some(value)
            &&& {
                ||| spells(value, "token "@ + api_token)
                ||| spells(value, "Bearer "@ + api_token)
            }
        },
{
    if let Some(value) = authorization {
        a_header_value_spells_its_text(value, "token "@ + api_token);
        a_header_value_spells_its_text(value, "Bearer "@ + api_token);
        if let Some(text) = header_text(value) {
            lemma_presented(value, text, api_token);
        }
    }
}

/// The token that a text presents is what stands behind one of the two prefixes.
proof fn lemma_presented(value: Seq<u8>, text: Seq<char>, token: Seq<char>)
    requires
        header_text(value) == Some(text),
    ensures
        presented_token(Some(value)) == Ok::<Seq<char>, ErrorView>(token) <==> {
            ||| text == "token "@ + token
            ||| text == "Bearer "@ + token
        },
{
    reveal_strlit("token ");
    reveal_strlit("Bearer ");
    lemma_stripped(text, "token "@, token);
    lemma_stripped(text, "Bearer "@, token);
    if text == "Bearer "@ + token {
        assert(text[0] == 'B');
        assert("token "@[0] == 't');
        if "token "@.is_prefix_of(text) {
            assert(text.subrange(0, "token "@.len() as int)[0] == text[0]);
        }
    }
}

proof fn lemma_stripped(text: Seq<char>, prefix: Seq<char>, rest: Seq<char>)
    ensures
        stripped(text, prefix) == Some(rest) <==> text == prefix + rest,
{
    prefix_and_rest_make_the_text(text, prefix, rest);
}

/// What a refused caller is answered: without a header, or with one that spells no text, that the
/// header is missing; with a text that starts with neither prefix, that it is invalid; with any
/// token `other` than the API token, that the token is.
pub proof fn what_a_refused_caller_is_answered(
    value: Seq<u8>,
    text: Seq<char>,
    other: Seq<char>,
    api_token: Seq<char>,
)
    ensures
        authorization_check(None, api_token) == Err::<(), ErrorView>(
            ErrorView::Http(StatusCode::BadRequest, "missing authorization header"@),
        ),
        (forall|t: Seq<char>| !#[trigger] spells(value, t)) ==> authorization_check(
            Some(value),
            api_token,
        ) == Err::<(), ErrorView>(
            ErrorView::Http(StatusCode::BadRequest, "missing authorization header"@),
        ),
        spells(value, text) && !"token "@.is_prefix_of(text) && !"Bearer "@.is_prefix_of(text)
            ==> authorization_check(Some(value), api_token) == Err::<(), ErrorView>(
            ErrorView::Http(StatusCode::BadRequest, "invalid authorization header"@),
        ),
        other != api_token && (spells(value, "token "@ + other) || spells(
            value,
            "Bearer "@ + other,
        )) ==> authorization_check(Some(value), api_token) == Err::<(), ErrorView>(
            ErrorView::Http(StatusCode::Unauthorized, "invalid authorization token"@),
        ),
{
    if let Some(own) = header_text(value) {
        a_header_value_spells_its_text(value, own);
        lemma_presented(value, own, other);
    }
    a_header_value_spells_its_text(value, text);
    a_header_value_spells_its_text(value, "token "@ + other);
    a_header_value_spells_its_text(value, "Bearer "@ + other);
}

/// A request that carries some token, but not the API token, is unauthorized; one that carries
/// none is a bad request.
pub proof fn refusals_tell_a_wrong_token_from_none(
    authorization: Option<Seq<u8>>,
    api_token: Seq<char>,
)
    ensures
        authorization_check(authorization, api_token) matches Err(ErrorView::Http(status, _)) ==> {
            &&& status == StatusCode::Unauthorized <==> presented_token(authorization) is Ok
            &&& status == StatusCode::BadRequest <==> presented_token(authorization) is Err
        },
        !(authorization_check(authorization, api_token) matches Err(ErrorView::Internal(_))),
{
}

} // verus!
