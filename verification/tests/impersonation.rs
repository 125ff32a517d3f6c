use collab::accounts::{NewAccessToken, User, UserId};
use collab::error::{Error, StatusCode};
use collab::impersonation::{
    AfterLookup, AwaitingToken, ImpersonateUserRequest, LookupKey, impersonate_user,
};

/// The keys that are tried until one of them finds somebody, and what comes of it.
fn run(name: &str, found: impl Fn(LookupKey) -> Result<Option<User>, Error>) -> (
    Vec<LookupKey>,
    Result<NewAccessToken, Error>,
) {
    let mut tried = Vec::new();
    let request = ImpersonateUserRequest { github_login: String::from(name) };
    let (mut request, mut lookup) = impersonate_user(request);
    loop {
        assert_eq!(lookup.value, name);
        tried.push(lookup.key);
        match request.user_looked_up(found(lookup.key)) {
            Ok(AfterLookup::LookUp(next, again)) => {
                request = next;
                lookup = again;
            }
            Ok(AfterLookup::CreateToken(request, order)) => {
                assert_eq!(request.user_id, order.user_id);
                return (tried, Ok(order));
            }
            Err(error) => return (tried, Err(error)),
        }
    }
}

fn only(key: LookupKey) -> impl Fn(LookupKey) -> Result<Option<User>, Error> {
    move |tried| Ok((tried == key).then_some(User { id: UserId(3), admin: false }))
}

#[test]
fn a_user_is_found_by_login_then_identifier_then_email() {
    let keys = [LookupKey::GithubLogin, LookupKey::AffineId, LookupKey::Email];
    for (i, key) in keys.into_iter().enumerate() {
        let (tried, order) = run("nathan", only(key));
        assert_eq!(tried, keys[..=i]);
        assert_eq!(
            order.ok(),
            Some(NewAccessToken { user_id: UserId(3), impersonated_user_id: None })
        );
    }
}

#[test]
fn a_user_whom_nobody_knows_is_not_found() {
    let (tried, order) = run("ghost", |_| Ok(None));
    assert_eq!(tried.len(), 3);
    match order {
        Err(Error::Http(status, message)) => {
            assert_eq!(status, StatusCode::NotFound);
            assert_eq!(message, "user ghost not found");
        }
        _ => panic!("no refusal"),
    }
}

#[test]
fn a_failed_lookup_ends_the_request() {
    let (tried, order) = run("nathan", |key| match key {
        LookupKey::AffineId => Err(Error::Internal(String::from("down"))),
        _ => Ok(None),
    });
    assert_eq!(tried, [LookupKey::GithubLogin, LookupKey::AffineId]);
    assert!(matches!(order, Err(Error::Internal(cause)) if cause == "down"));
}

#[test]
fn the_answer_holds_the_token() {
    let token = |id: i32| {
        AwaitingToken { user_id: UserId(id) }
            .token_created(Ok(String::from("tok")))
            .unwrap_or_else(|_| panic!())
    };
    assert_eq!(token(3).user_id, 3);
    assert_eq!(token(3).access_token, "tok");
    assert_eq!(token(i32::MAX).user_id, 2147483647);
    assert_eq!(token(-1).user_id, u64::MAX);
    assert_eq!(token(i32::MIN).user_id, i32::MIN as u64);
    let failed = AwaitingToken { user_id: UserId(1) }
        .token_created(Err(Error::Internal(String::from("down"))));
    assert!(matches!(failed, Err(Error::Internal(cause)) if cause == "down"));
}
