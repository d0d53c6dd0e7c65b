use lek_backend::auth::{
    generate_access_token, generate_refresh_token, get_hash, get_jwt_config, validate_token,
    Claims, TokenType,
};
use lek_backend::graphql::{
    check_owner, judge_password, pair_tokens, require_identity, judge_lookup, Mutation, Query,
    QuestionLookup,
};
use lek_backend::models::comment::{
    CommentDB, DeleteComment, InsertableComment, ModifyComment, ModifyCommentForm, NewComment,
    Nullable,
};
use lek_backend::models::user::{NewUser, SafeUser, Tokens, User};
use lek_backend::utils::{
    BackendError, CryptoFailure, DatabaseFailure, TokenErrorKind, TokenFailure,
};

fn now() -> u64 {
    jsonwebtoken::get_current_timestamp()
}

fn not_found() -> BackendError {
    BackendError::DatabaseError(DatabaseFailure::NotFound)
}

fn storage_down() -> BackendError {
    BackendError::DatabaseError(DatabaseFailure::Other("connection refused".to_owned()))
}

fn user(id: i32, is_admin: bool) -> SafeUser {
    SafeUser { id, username: format!("user{}", id), nickname: format!("nick{}", id), is_admin }
}

fn stored_user(password: &str, is_admin: bool) -> User {
    User {
        id: 9,
        username: "alice".to_owned(),
        password_hash: get_hash(password).unwrap(),
        nickname: "Al".to_owned(),
        is_admin,
    }
}

fn comment_of(owner: i32) -> CommentDB {
    CommentDB {
        id: 40,
        content: "I think it is B".to_owned(),
        suggested_answer: Some(2),
        users_fk: owner,
        questions_fk: 3,
        likes: 0,
    }
}

fn change() -> ModifyCommentForm {
    ModifyCommentForm {
        id: 40,
        content: Some("It is C".to_owned()),
        suggested_answer: Nullable::Given(3),
    }
}

#[test]
fn questions_lookup() {
    assert_eq!(Query::questions(None, None), QuestionLookup::All);
    assert_eq!(Query::questions(Some(4), None), QuestionLookup::ById(4));
    assert_eq!(Query::questions(Some(4), Some(6)), QuestionLookup::ById(4));
    assert_eq!(Query::questions(None, Some(6)), QuestionLookup::ByCategory(6));
}

#[test]
fn login_with_an_unknown_username_is_wrong_credentials() {
    let config = get_jwt_config();
    assert_eq!(
        Mutation::login(Err(not_found()), "hunter2", now(), &config),
        Err(BackendError::WrongCredentials)
    );
}

#[test]
fn login_with_a_wrong_password_is_wrong_credentials() {
    let config = get_jwt_config();
    assert_eq!(
        Mutation::login(Ok(stored_user("hunter2", false)), "hunter3", now(), &config),
        Err(BackendError::WrongCredentials)
    );
}

#[test]
fn both_login_failures_are_the_same_to_the_caller() {
    let config = get_jwt_config();
    let unknown_name = Mutation::login(Err(not_found()), "hunter3", now(), &config);
    let wrong_password =
        Mutation::login(Ok(stored_user("hunter2", false)), "hunter3", now(), &config);
    assert_eq!(unknown_name, wrong_password);
    assert_eq!(
        unknown_name.unwrap_err().message(),
        wrong_password.unwrap_err().message()
    );
}

#[test]
fn login_passes_other_storage_failures_on() {
    let config = get_jwt_config();
    assert_eq!(
        Mutation::login(Err(storage_down()), "hunter2", now(), &config),
        Err(storage_down())
    );
    assert_eq!(
        Mutation::login(Err(BackendError::UnknownError), "hunter2", now(), &config),
        Err(BackendError::UnknownError)
    );
}

#[test]
fn login_with_an_unreadable_hash_is_a_crypto_error() {
    let config = get_jwt_config();
    let mut broken = stored_user("hunter2", false);
    broken.password_hash = "nonsense".to_owned();
    assert_eq!(
        Mutation::login(Ok(broken), "hunter2", now(), &config),
        Err(BackendError::CryptoError(CryptoFailure {
            message: "Invalid hash: nonsense".to_owned()
        }))
    );
}

#[test]
fn login_issues_both_tokens_for_the_user() {
    let mut config = get_jwt_config();
    let issued = now();
    let tokens = Mutation::login(Ok(stored_user("hunter2", true)), "hunter2", issued, &config)
        .unwrap();
    assert_eq!(
        tokens,
        Tokens {
            access_token: generate_access_token(9, issued, &config, true).unwrap(),
            refresh_token: generate_refresh_token(9, issued, &config, true).unwrap(),
        }
    );
    assert_eq!(
        validate_token(&tokens.access_token, &config, TokenType::Access),
        Ok(Claims::access(9, issued, true))
    );
    config.validate_nbf = false;
    assert_eq!(
        validate_token(&tokens.refresh_token, &config, TokenType::Refresh),
        Ok(Claims::refresh(9, issued, true))
    );
}

#[test]
fn lookup_verdicts() {
    let found = stored_user("x", false);
    assert_eq!(judge_lookup(Ok(found.clone())), Ok(found));
    assert_eq!(judge_lookup(Err(not_found())), Err(BackendError::WrongCredentials));
    assert_eq!(judge_lookup(Err(storage_down())), Err(storage_down()));
    assert_eq!(
        judge_lookup(Err(BackendError::NotAuthorized)),
        Err(BackendError::NotAuthorized)
    );
}

#[test]
fn password_verdicts() {
    assert_eq!(judge_password(Ok(true)), Ok(()));
    assert_eq!(judge_password(Ok(false)), Err(BackendError::WrongCredentials));
    let failure = CryptoFailure { message: "Invalid hash: x".to_owned() };
    assert_eq!(
        judge_password(Err(failure.clone())),
        Err(BackendError::CryptoError(failure))
    );
}

#[test]
fn token_pairs() {
    let a = TokenFailure::Engine(TokenErrorKind::Other, "a".to_owned());
    let b = TokenFailure::Engine(TokenErrorKind::InvalidAlgorithm, "b".to_owned());
    assert_eq!(
        pair_tokens(Ok("x".to_owned()), Ok("y".to_owned())),
        Ok(Tokens { access_token: "x".to_owned(), refresh_token: "y".to_owned() })
    );
    assert_eq!(
        pair_tokens(Err(a.clone()), Ok("y".to_owned())),
        Err(BackendError::TokenError(a.clone()))
    );
    assert_eq!(
        pair_tokens(Ok("x".to_owned()), Err(b.clone())),
        Err(BackendError::TokenError(b.clone()))
    );
    assert_eq!(pair_tokens(Err(a.clone()), Err(b)), Err(BackendError::TokenError(a)));
}

#[test]
fn refresh_issues_an_access_token_with_the_claims_of_the_refresh_token() {
    let mut config = get_jwt_config();
    config.validate_nbf = false;
    let refresh_token = generate_refresh_token(9, now() - 50, &config, true).unwrap();
    let at = now();
    let tokens = Mutation::refresh_tokens(&refresh_token, at, &config).unwrap();
    assert_eq!(tokens.refresh_token, "");
    assert_eq!(tokens.access_token, generate_access_token(9, at, &config, true).unwrap());
    assert_eq!(
        validate_token(&tokens.access_token, &config, TokenType::Access),
        Ok(Claims::access(9, at, true))
    );
}

#[test]
fn refresh_does_not_accept_an_access_token() {
    let config = get_jwt_config();
    let access_token = generate_access_token(9, now(), &config, true).unwrap();
    assert_eq!(
        Mutation::refresh_tokens(&access_token, now(), &config),
        Err(BackendError::WrongCredentials)
    );
}

#[test]
fn refresh_does_not_accept_garbage_or_an_early_token() {
    let config = get_jwt_config();
    assert_eq!(
        Mutation::refresh_tokens("garbage", now(), &config),
        Err(BackendError::TokenError(TokenFailure::Engine(
            TokenErrorKind::InvalidToken,
            "InvalidToken".to_owned()
        )))
    );
    let early = generate_refresh_token(9, now(), &config, true).unwrap();
    assert_eq!(
        Mutation::refresh_tokens(&early, now(), &config),
        Err(BackendError::TokenError(TokenFailure::Engine(
            TokenErrorKind::ImmatureSignature,
            "ImmatureSignature".to_owned()
        )))
    );
}

#[test]
fn refresh_from_a_verdict() {
    let config = get_jwt_config();
    assert_eq!(
        Mutation::refresh_from(Err(BackendError::WrongCredentials), 10, &config),
        Err(BackendError::WrongCredentials)
    );
    let mut claims = Claims::refresh(9, 10, false);
    assert_eq!(
        Mutation::refresh_from(Ok(claims.clone()), 500, &config),
        Ok(Tokens {
            access_token: generate_access_token(9, 500, &config, false).unwrap(),
            refresh_token: String::new(),
        })
    );
    claims.sub = "nobody".to_owned();
    assert_eq!(
        Mutation::refresh_from(Ok(claims), 500, &config),
        Err(BackendError::NotAuthorized)
    );
}

#[test]
fn signup_hashes_the_password() {
    let input = NewUser {
        username: "alice".to_owned(),
        password: "hunter2".to_owned(),
        nickname: "Al".to_owned(),
    };
    let prepared = Mutation::signup(input).unwrap();
    assert_eq!(prepared.username, "alice");
    assert_eq!(prepared.nickname, "Al");
    assert_ne!(prepared.password_hash, "hunter2");
    assert_eq!(lek_backend::auth::check_hash("hunter2", &prepared.password_hash), Ok(true));
}

#[test]
fn anonymous_callers_are_not_authorized() {
    assert_eq!(require_identity(None), Err(BackendError::NotAuthorized));
    let input = NewComment { content: "c".to_owned(), question: 3, suggested_answer: None };
    assert_eq!(Mutation::add_comment(None, input), Err(BackendError::NotAuthorized));
    assert_eq!(Mutation::delete_user(None), Err(BackendError::NotAuthorized));
}

#[test]
fn identified_callers_act_under_their_identity() {
    let alice = user(9, false);
    assert_eq!(require_identity(Some(&alice)), Ok(&alice));
    let input = NewComment { content: "c".to_owned(), question: 3, suggested_answer: Some(1) };
    assert_eq!(
        Mutation::add_comment(Some(&alice), input),
        Ok(InsertableComment {
            content: "c".to_owned(),
            suggested_answer: Some(1),
            users_fk: 9,
            questions_fk: 3,
        })
    );
    assert_eq!(Mutation::delete_user(Some(&alice)), Ok(9));
}

#[test]
fn owner_may_delete_and_change() {
    let alice = user(9, false);
    assert_eq!(check_owner(&alice, 9), Ok(()));
    assert_eq!(
        Mutation::delete_comment(&alice, Ok(comment_of(9)), DeleteComment { id: 40 }),
        Ok(40)
    );
    let changed = ModifyComment {
        id: 40,
        content: Some("It is C".to_owned()),
        suggested_answer: Some(Some(3)),
    };
    assert_eq!(Mutation::modify_comment(&alice, Ok(comment_of(9)), change()), Ok(changed.clone()));
    assert_eq!(Mutation::modify_question(&alice, Ok(comment_of(9)), change()), Ok(changed));
}

#[test]
fn another_user_may_neither_delete_nor_change() {
    for is_admin in [false, true] {
        let bob = user(10, is_admin);
        assert_eq!(check_owner(&bob, 9), Err(BackendError::NotAuthorized));
        assert_eq!(
            Mutation::delete_comment(&bob, Ok(comment_of(9)), DeleteComment { id: 40 }),
            Err(BackendError::NotAuthorized)
        );
        assert_eq!(
            Mutation::modify_comment(&bob, Ok(comment_of(9)), change()),
            Err(BackendError::NotAuthorized)
        );
        assert_eq!(
            Mutation::modify_question(&bob, Ok(comment_of(9)), change()),
            Err(BackendError::NotAuthorized)
        );
    }
}

#[test]
fn failed_fetch_is_passed_on() {
    let alice = user(9, false);
    assert_eq!(
        Mutation::delete_comment(&alice, Err(not_found()), DeleteComment { id: 40 }),
        Err(not_found())
    );
    assert_eq!(Mutation::modify_comment(&alice, Err(storage_down()), change()), Err(storage_down()));
    assert_eq!(Mutation::modify_question(&alice, Err(not_found()), change()), Err(not_found()));
}
