use collab::authorization::{check_token, read_token, validate_api_token};
use collab::error::{Error, StatusCode};

fn refusal(result: Result<(), Error>) -> (StatusCode, String) {
    match result {
        Err(Error::Http(status, message)) => (status, message),
        _ => panic!("the request was not refused"),
    }
}

#[test]
fn both_prefixes_are_accepted() {
    assert!(validate_api_token(Some(b"token secret"), "secret").is_ok());
    assert!(validate_api_token(Some(b"Bearer secret"), "secret").is_ok());
    assert!(validate_api_token(Some(b"token "), "").is_ok());
}

#[test]
fn a_missing_header_is_a_bad_request() {
    let expected = (StatusCode::BadRequest, String::from("missing authorization header"));
    assert_eq!(refusal(validate_api_token(None, "secret")), expected);
    assert_eq!(refusal(validate_api_token(Some("token sécret".as_bytes()), "sécret")), expected);
    assert_eq!(refusal(validate_api_token(Some(b"token \x7f"), "\u{7f}")), expected);
    assert_eq!(refusal(validate_api_token(Some(b"token \n"), "\n")), expected);
}

#[test]
fn another_scheme_is_a_bad_request() {
    let expected = (StatusCode::BadRequest, String::from("invalid authorization header"));
    assert_eq!(refusal(validate_api_token(Some(b"Basic secret"), "secret")), expected);
    assert_eq!(refusal(validate_api_token(Some(b"bearer secret"), "secret")), expected);
    assert_eq!(refusal(validate_api_token(Some(b"secret"), "secret")), expected);
    assert_eq!(refusal(validate_api_token(Some(b""), "secret")), expected);
    assert_eq!(refusal(validate_api_token(Some(b"token"), "secret")), expected);
}

#[test]
fn a_wrong_token_is_unauthorized() {
    let expected = (StatusCode::Unauthorized, String::from("invalid authorization token"));
    assert_eq!(refusal(validate_api_token(Some(b"token Secret"), "secret")), expected);
    assert_eq!(refusal(validate_api_token(Some(b"Bearer secret "), "secret")), expected);
    assert_eq!(refusal(validate_api_token(Some(b"token Bearer secret"), "secret")), expected);
    assert_eq!(refusal(validate_api_token(Some(b"token "), "secret")), expected);
}

#[test]
fn a_token_is_read_before_it_is_checked() {
    assert_eq!(read_token(Some(b"Bearer a b")).ok(), Some(String::from("a b")));
    assert_eq!(read_token(Some(b"token token x")).ok(), Some(String::from("token x")));
    assert!(read_token(None).is_err());
    assert!(check_token("a b", "a b").is_ok());
    assert!(check_token("a b", "a").is_err());
}

#[test]
fn a_tab_is_text() {
    assert!(validate_api_token(Some(b"token a\tb"), "a\tb").is_ok());
}

#[test]
fn statuses_have_their_numbers() {
    assert_eq!(StatusCode::BadRequest.as_u16(), 400);
    assert_eq!(StatusCode::Unauthorized.as_u16(), 401);
    assert_eq!(StatusCode::NotFound.as_u16(), 404);
    assert_eq!(StatusCode::UnprocessableEntity.as_u16(), 422);
    assert_eq!(StatusCode::InternalServerError.as_u16(), 500);
}
