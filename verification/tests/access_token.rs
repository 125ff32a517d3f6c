use collab::access_token::{
    AfterUser, CreateAccessTokenQueryParams, CreateAccessTokenResponse, create_access_token,
};
use collab::accounts::{NewAccessToken, User, UserId};
use collab::error::{Error, StatusCode};

fn params(impersonate: Option<&str>) -> CreateAccessTokenQueryParams {
    CreateAccessTokenQueryParams {
        public_key: String::from("pk"),
        impersonate: impersonate.map(String::from),
    }
}

fn user(id: i32, admin: bool) -> Result<Option<User>, Error> {
    Ok(Some(User { id: UserId(id), admin }))
}

fn refused<T>(result: Result<T, Error>) -> (StatusCode, String) {
    match result {
        Err(Error::Http(status, message)) => (status, message),
        _ => panic!("no refusal"),
    }
}

fn failed<T>(result: Result<T, Error>) -> String {
    match result {
        Err(Error::Internal(cause)) => cause,
        _ => panic!("no failure"),
    }
}

fn finish(
    request: collab::access_token::AwaitingToken,
) -> CreateAccessTokenResponse {
    let (request, encryption) =
        request.token_created(Ok(String::from("tok"))).unwrap_or_else(|_| panic!());
    assert_eq!(encryption.access_token, "tok");
    assert_eq!(encryption.public_key, "pk");
    request.token_encrypted(Ok(String::from("enc"))).unwrap_or_else(|_| panic!())
}

#[test]
fn anybody_gets_a_token_of_their_own() {
    for admin in [false, true] {
        let (request, lookup) = create_access_token(UserId(5), params(None));
        assert_eq!(lookup, UserId(5));
        match request.user_found(user(5, admin)) {
            Ok(AfterUser::CreateToken(request, order)) => {
                let expected =
                    NewAccessToken { user_id: UserId(5), impersonated_user_id: None };
                assert_eq!(order, expected);
                let response = finish(request);
                assert_eq!(response.user_id, UserId(5));
                assert_eq!(response.encrypted_access_token, "enc");
            }
            _ => panic!("no token is made"),
        }
    }
}

#[test]
fn an_administrator_acts_as_another_user() {
    let (request, _) = create_access_token(UserId(5), params(Some("nathan")));
    match request.user_found(user(5, true)) {
        Ok(AfterUser::FindImpersonated(request, login)) => {
            assert_eq!(login, "nathan");
            let (request, order) =
                request.impersonated_found(user(9, false)).unwrap_or_else(|_| panic!());
            let expected =
                NewAccessToken { user_id: UserId(5), impersonated_user_id: Some(UserId(9)) };
            assert_eq!(order, expected);
            assert_eq!(finish(request).user_id, UserId(9));
        }
        _ => panic!("nobody is looked up"),
    }
}

#[test]
fn others_may_not_act_as_another_user() {
    let (request, _) = create_access_token(UserId(5), params(Some("nathan")));
    assert_eq!(
        refused(request.user_found(user(5, false))),
        (
            StatusCode::Unauthorized,
            String::from("you do not have permission to impersonate other users")
        )
    );
}

#[test]
fn nobody_can_act_as_a_user_who_does_not_exist() {
    let (request, _) = create_access_token(UserId(5), params(Some("ghost")));
    match request.user_found(user(5, true)) {
        Ok(AfterUser::FindImpersonated(request, _)) => assert_eq!(
            refused(request.impersonated_found(Ok(None))),
            (StatusCode::UnprocessableEntity, String::from("user ghost does not exist"))
        ),
        _ => panic!("nobody is looked up"),
    }
}

#[test]
fn an_unknown_user_is_a_failure() {
    let (request, _) = create_access_token(UserId(5), params(Some("nathan")));
    assert_eq!(failed(request.user_found(Ok(None))), "user not found");
}

#[test]
fn a_failed_call_ends_the_request() {
    let down = || Error::Internal(String::from("down"));
    let (request, _) = create_access_token(UserId(5), params(None));
    assert_eq!(failed(request.user_found(Err(down()))), "down");
    let (request, _) = create_access_token(UserId(5), params(Some("x")));
    match request.user_found(user(5, true)) {
        Ok(AfterUser::FindImpersonated(request, _)) => {
            assert_eq!(failed(request.impersonated_found(Err(down()))), "down");
        }
        _ => panic!("nobody is looked up"),
    }
    let (request, _) = create_access_token(UserId(5), params(None));
    match request.user_found(user(5, true)) {
        Ok(AfterUser::CreateToken(request, _)) => {
            assert_eq!(failed(request.token_created(Err(down()))), "down");
        }
        _ => panic!("no token is made"),
    }
    let request = collab::access_token::AwaitingEncryption {
        order: NewAccessToken { user_id: UserId(5), impersonated_user_id: None },
    };
    assert_eq!(failed(request.token_encrypted(Err(down()))), "down");
}
