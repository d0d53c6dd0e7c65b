//! What the resolvers decide: which lookup a query makes, and for each
//! mutation whether the caller may make it and what is then to be stored.
//! Storage itself is the caller's part: a resolver here takes what a lookup
//! gave and hands back what to write.

use crate::auth::{
    access_claims, check_hash, generate_access_token, generate_refresh_token, get_hash,
    refresh_claims, signed_token, validate_token, validation_outcome, Claims, JWTConfig,
    JWTConfigView, TokenType, ACCESS_TTL, REFRESH_TTL,
};
use crate::hashing::{is_engine_hash, password_check};
use crate::models::comment::{
    CommentDB, DeleteComment, InsertableComment, ModifyComment, ModifyCommentForm, NewComment,
};
use crate::models::user::{InsertableUser, NewUser, SafeUser, Tokens, User};
use crate::text::{parse_decimal, parse_id};
use crate::utils::{BackendError, CryptoFailure, DatabaseFailure, TokenFailure};
use vstd::prelude::*;

verus! {

/// The root of the queries.
#[derive(Debug, Clone, Copy, PartialEq, Eq, Structural)]
pub struct Query;

/// The root of the mutations.
#[derive(Debug, Clone, Copy, PartialEq, Eq, Structural)]
pub struct Mutation;

/// The lookup that answers a query for questions.
#[derive(Debug, Clone, Copy, PartialEq, Eq, Structural)]
pub enum QuestionLookup {
    All,
    ById(i32),
    ByCategory(i32),
}

impl Query {
    /// Which questions are asked for: the one with the id if an id is given,
    /// else those of the category if one is given, else all.
    pub fn questions(id: Option<i32>, category_id: Option<i32>) -> (r: QuestionLookup)
        ensures
            r == match (id, category_id) {
                (None, None) => QuestionLookup::All,
                (Some(id), _) => QuestionLookup::ById(id),
                (None, Some(id)) => QuestionLookup::ByCategory(id),
            },
    {
        match (id, category_id) {
            (None, None) => QuestionLookup::All,
            (Some(id), _) => QuestionLookup::ById(id),
            (None, Some(id)) => QuestionLookup::ByCategory(id),
        }
    }
}

/// The identity that a mutation runs under: an anonymous caller is not
/// authorized.
pub fn require_identity<'a>(user: Option<&'a SafeUser>) -> (r: Result<&'a SafeUser, BackendError>)
    ensures
        match user {
            Some(identity) => r == Ok::<&SafeUser, BackendError>(identity),
            None => r == Err::<&SafeUser, BackendError>(BackendError::NotAuthorized),
        },
{
    match user {
        Some(identity) => Ok(identity),
        None => Err(BackendError::NotAuthorized),
    }
}

/// Whether `user` may change or delete what `owner` owns: only the owner may,
/// whether or not the user is an administrator.
pub open spec fn owner_verdict(user: SafeUser, owner: i32) -> Result<(), BackendError> {
    if owner == user.id {
        Ok(())
    } else {
        Err(BackendError::NotAuthorized)
    }
}

pub fn check_owner(user: &SafeUser, owner: i32) -> (r: Result<(), BackendError>)
    ensures
        r == owner_verdict(*user, owner),
{
    if owner == user.id {
        Ok(())
    } else {
        Err(BackendError::NotAuthorized)
    }
}

/// What a login sees of the lookup by username: a user that does not exist
/// is reported as wrong credentials, so that a caller cannot tell which
/// usernames exist; any other failure is passed on.
pub open spec fn login_lookup(lookup: Result<User, BackendError>) -> Result<User, BackendError> {
    match lookup {
        Ok(user) => Ok(user),
        Err(error) => if error.is_not_found() {
            Err(BackendError::WrongCredentials)
        } else {
            Err(error)
        },
    }
}

pub fn judge_lookup(lookup: Result<User, BackendError>) -> (r: Result<User, BackendError>)
    ensures
        r == login_lookup(lookup),
{
    match lookup {
        Ok(user) => Ok(user),
        Err(BackendError::DatabaseError(DatabaseFailure::NotFound)) => Err(
            BackendError::WrongCredentials,
        ),
        Err(do_not_change) => Err(do_not_change),
    }
}

/// The verdict on a password from what the check of it gave: a failed check
/// is an error of the hashing engine, a mismatch is wrong credentials.
pub open spec fn password_verdict(checked: Result<bool, CryptoFailure>) -> Result<
    (),
    BackendError,
> {
    match checked {
        Ok(true) => Ok(()),
        Ok(false) => Err(BackendError::WrongCredentials),
        Err(failure) => Err(BackendError::CryptoError(failure)),
    }
}

pub fn judge_password(checked: Result<bool, CryptoFailure>) -> (r: Result<(), BackendError>)
    ensures
        r == password_verdict(checked),
{
    match checked {
        Ok(true) => Ok(()),
        Ok(false) => Err(BackendError::WrongCredentials),
        Err(failure) => Err(BackendError::CryptoError(failure)),
    }
}

/// The pair of tokens made of what signing gave for each: the first failure,
/// access before refresh, if there is one.
pub open spec fn token_pair(
    access: Result<String, TokenFailure>,
    refresh: Result<String, TokenFailure>,
) -> Result<Tokens, BackendError> {
    match (access, refresh) {
        (Ok(access_token), Ok(refresh_token)) => Ok(Tokens { access_token, refresh_token }),
        (Err(failure), _) => Err(BackendError::TokenError(failure)),
        (_, Err(failure)) => Err(BackendError::TokenError(failure)),
    }
}

pub fn pair_tokens(
    access: Result<String, TokenFailure>,
    refresh: Result<String, TokenFailure>,
) -> (r: Result<Tokens, BackendError>)
    ensures
        r == token_pair(access, refresh),
{
    match (access, refresh) {
        (Ok(access_token), Ok(refresh_token)) => Ok(Tokens { access_token, refresh_token }),
        (Err(failure), _) => Err(BackendError::TokenError(failure)),
        (_, Err(failure)) => Err(BackendError::TokenError(failure)),
    }
}

/// What a login may return. The lookup is judged first, then the password,
/// then both tokens are issued at `timestamp` for the user found, with the
/// user's administrator flag.
pub open spec fn login_outcome(
    lookup: Result<User, BackendError>,
    password: Seq<char>,
    timestamp: nat,
    config: JWTConfigView,
    r: Result<Tokens, BackendError>,
) -> bool {
    match login_lookup(lookup) {
        Err(error) => r == Err::<Tokens, BackendError>(error),
        Ok(user) => match password_check(password, user.password_hash@) {
            None => r matches Err(BackendError::CryptoError(_)),
            Some(false) => r == Err::<Tokens, BackendError>(BackendError::WrongCredentials),
            Some(true) => {
                let access = signed_token(
                    access_claims(user.id, timestamp, user.is_admin),
                    config.secret,
                );
                let refresh = signed_token(
                    refresh_claims(user.id, timestamp, user.is_admin),
                    config.secret,
                );
                match r {
                    Ok(tokens) => access == Some(tokens.access_token@) && refresh == Some(
                        tokens.refresh_token@,
                    ),
                    Err(BackendError::TokenError(_)) => access is None || refresh is None,
                    Err(_) => false,
                }
            },
        },
    }
}

/// What a refresh may return from the verdict on the presented token: a
/// refusal is passed on; a subject that is no user id is not authorized;
/// otherwise a new access token is issued at `timestamp` for the subject,
/// with the administrator flag of the claims, and no refresh token.
pub open spec fn refresh_outcome(
    validated: Result<Claims, BackendError>,
    timestamp: nat,
    config: JWTConfigView,
    r: Result<Tokens, BackendError>,
) -> bool {
    match validated {
        Err(error) => r == Err::<Tokens, BackendError>(error),
        Ok(claims) => match parse_decimal(claims.sub@) {
            None => r == Err::<Tokens, BackendError>(BackendError::NotAuthorized),
            Some(user_id) => {
                let access = signed_token(
                    access_claims(user_id, timestamp, claims.admin),
                    config.secret,
                );
                match r {
                    Ok(tokens) => access == Some(tokens.access_token@) && tokens.refresh_token@
                        == Seq::<char>::empty(),
                    Err(BackendError::TokenError(_)) => access is None,
                    Err(_) => false,
                }
            },
        },
    }
}

/// The verdict on deleting a comment, given what fetching it gave: a failed
/// fetch is passed on, and only the comment's owner gets the id to delete.
pub open spec fn deletion_verdict(
    user: SafeUser,
    comment: Result<CommentDB, BackendError>,
    input: DeleteComment,
) -> Result<i32, BackendError> {
    match comment {
        Err(error) => Err(error),
        Ok(found) => match owner_verdict(user, found.users_fk) {
            Ok(_) => Ok(input.id),
            Err(error) => Err(error),
        },
    }
}

/// The verdict on changing a comment, given what fetching it gave: a failed
/// fetch is passed on, and only the comment's owner gets the change to store.
pub open spec fn modification_verdict(
    user: SafeUser,
    comment: Result<CommentDB, BackendError>,
    input: ModifyCommentForm,
) -> Result<ModifyComment, BackendError> {
    match comment {
        Err(error) => Err(error),
        Ok(found) => match owner_verdict(user, found.users_fk) {
            Ok(_) => Ok(
                ModifyComment {
                    id: input.id,
                    content: input.content,
                    suggested_answer: input.suggested_answer.explicit_spec(),
                },
            ),
            Err(error) => Err(error),
        },
    }
}

impl Mutation {
    /// Logs a user in, given what the lookup by username gave.
    pub fn login(
        lookup: Result<User, BackendError>,
        password: &str,
        timestamp: u64,
        jwt_config: &JWTConfig,
    ) -> (r: Result<Tokens, BackendError>)
        requires
            timestamp + REFRESH_TTL <= u64::MAX,
        ensures
            login_outcome(lookup, password@, timestamp as nat, jwt_config@, r),
    {
        let user = match judge_lookup(lookup) {
            Ok(user) => user,
            Err(error) => {
                return Err(error);
            },
        };
        let password_matches = check_hash(password, user.password_hash.as_str());
        match judge_password(password_matches) {
            Ok(()) => {
                let access = generate_access_token(user.id, timestamp, jwt_config, user.is_admin);
                let refresh = generate_refresh_token(user.id, timestamp, jwt_config, user.is_admin);
                pair_tokens(access, refresh)
            },
            Err(error) => Err(error),
        }
    }

    /// Issues the tokens of a refresh from the verdict on the presented
    /// token.
    pub fn refresh_from(
        validated: Result<Claims, BackendError>,
        timestamp: u64,
        jwt_config: &JWTConfig,
    ) -> (r: Result<Tokens, BackendError>)
        requires
            timestamp + ACCESS_TTL <= u64::MAX,
        ensures
            refresh_outcome(validated, timestamp as nat, jwt_config@, r),
    {
        let validation_claims = match validated {
            Ok(claims) => claims,
            Err(error) => {
                return Err(error);
            },
        };
        let user_id = match parse_id(validation_claims.sub.as_str()) {
            Some(user_id) => user_id,
            None => {
                return Err(BackendError::NotAuthorized);
            },
        };
        match generate_access_token(user_id, timestamp, jwt_config, validation_claims.admin) {
            Ok(access_token) => Ok(Tokens { access_token, refresh_token: String::new() }),
            Err(failure) => Err(BackendError::TokenError(failure)),
        }
    }

    /// Exchanges a refresh token for a new access token. Only a refresh token
    /// is accepted; the subject and the administrator flag are taken from its
    /// claims as they are.
    pub fn refresh_tokens(refresh_token: &str, timestamp: u64, jwt_config: &JWTConfig) -> (r:
        Result<Tokens, BackendError>)
        requires
            timestamp + ACCESS_TTL <= u64::MAX,
        ensures
            exists|validated: Result<Claims, BackendError>|
                #![auto]
                validation_outcome(refresh_token@, jwt_config@, TokenType::Refresh, validated)
                    && refresh_outcome(validated, timestamp as nat, jwt_config@, r),
    {
        let validated = validate_token(refresh_token, jwt_config, TokenType::Refresh);
        Mutation::refresh_from(validated, timestamp, jwt_config)
    }

    /// Prepares a new user for storage: the password is hashed, the names
    /// are kept.
    pub fn signup(input: NewUser) -> (r: Result<InsertableUser, BackendError>)
        ensures
            match r {
                Ok(user) => {
                    &&& user.username == input.username
                    &&& user.nickname == input.nickname
                    &&& is_engine_hash(user.password_hash@)
                    &&& password_check(input.password@, user.password_hash@) == Some(true)
                },
                Err(error) => error is CryptoError,
            },
    {
        match get_hash(input.password.as_str()) {
            Ok(hash) => Ok(
                InsertableUser {
                    username: input.username,
                    password_hash: hash,
                    nickname: input.nickname,
                },
            ),
            Err(failure) => Err(BackendError::CryptoError(failure)),
        }
    }

    /// Prepares a comment for storage under the caller's identity.
    pub fn add_comment(user: Option<&SafeUser>, input: NewComment) -> (r: Result<
        InsertableComment,
        BackendError,
    >)
        ensures
            match user {
                None => r == Err::<InsertableComment, BackendError>(BackendError::NotAuthorized),
                Some(identity) => r == Ok::<InsertableComment, BackendError>(
                    InsertableComment {
                        content: input.content,
                        suggested_answer: input.suggested_answer,
                        users_fk: identity.id,
                        questions_fk: input.question,
                    },
                ),
            },
    {
        let user = match require_identity(user) {
            Ok(user) => user,
            Err(error) => {
                return Err(error);
            },
        };
        Ok(
            InsertableComment {
                content: input.content,
                suggested_answer: input.suggested_answer,
                users_fk: user.id,
                questions_fk: input.question,
            },
        )
    }

    /// Decides on the deletion of a comment, given what fetching it gave: a
    /// failed fetch is passed on, another user's comment is not to be
    /// touched, and the caller's own is to be deleted.
    pub fn delete_comment(
        user: &SafeUser,
        comment: Result<CommentDB, BackendError>,
        input: DeleteComment,
    ) -> (r: Result<i32, BackendError>)
        ensures
            r == deletion_verdict(*user, comment, input),
    {
        let comment = match comment {
            Ok(found) => found,
            Err(error) => {
                return Err(error);
            },
        };
        match check_owner(user, comment.users_fk) {
            Ok(()) => Ok(input.id),
            Err(error) => Err(error),
        }
    }

    /// Decides on a change to a comment, given what fetching it gave: a
    /// failed fetch is passed on, another user's comment is not to be
    /// touched, and for the caller's own the change is handed out.
    pub fn modify_comment(
        user: &SafeUser,
        comment: Result<CommentDB, BackendError>,
        input: ModifyCommentForm,
    ) -> (r: Result<ModifyComment, BackendError>)
        ensures
            r == modification_verdict(*user, comment, input),
    {
        let comment = match comment {
            Ok(found) => found,
            Err(error) => {
                return Err(error);
            },
        };
        match check_owner(user, comment.users_fk) {
            Ok(()) => Ok(input.into()),
            Err(error) => Err(error),
        }
    }

    /// Decides on the deletion of the caller's own account: the id of the
    /// user to delete.
    pub fn delete_user(user: Option<&SafeUser>) -> (r: Result<i32, BackendError>)
        ensures
            match user {
                None => r == Err::<i32, BackendError>(BackendError::NotAuthorized),
                Some(identity) => r == Ok::<i32, BackendError>(identity.id),
            },
    {
        match require_identity(user) {
            Ok(user) => Ok(user.id),
            Err(error) => Err(error),
        }
    }

    /// Decides on a change that arrives under the name of a question change:
    /// it is a change to a comment, and is judged as one.
    pub fn modify_question(
        user: &SafeUser,
        comment: Result<CommentDB, BackendError>,
        input: ModifyCommentForm,
    ) -> (r: Result<ModifyComment, BackendError>)
        ensures
            r == modification_verdict(*user, comment, input),
    {
        Mutation::modify_comment(user, comment, input)
    }
}

/// A login under a username that does not exist and a login under an
/// existing username with a wrong password fail alike, with wrong
/// credentials: the answer does not tell which usernames exist.
pub proof fn law_login_failures_alike(
    missing: BackendError,
    user: User,
    password: Seq<char>,
    timestamp: nat,
    config: JWTConfigView,
    unknown_name: Result<Tokens, BackendError>,
    wrong_password: Result<Tokens, BackendError>,
)
    requires
        missing.is_not_found(),
        login_outcome(Err(missing), password, timestamp, config, unknown_name),
        password_check(password, user.password_hash@) == Some(false),
        login_outcome(Ok(user), password, timestamp, config, wrong_password),
    ensures
        unknown_name == Err::<Tokens, BackendError>(BackendError::WrongCredentials),
        wrong_password == unknown_name,
{
}

/// A user who does not own a comment can neither delete nor change it,
/// though authenticated, though the comment exists, and administrator or
/// not.
pub proof fn law_foreign_comment_untouched(
    user: SafeUser,
    comment: CommentDB,
    deletion: DeleteComment,
    change: ModifyCommentForm,
)
    requires
        comment.users_fk != user.id,
    ensures
        deletion_verdict(user, Ok(comment), deletion) == Err::<i32, BackendError>(
            BackendError::NotAuthorized,
        ),
        modification_verdict(user, Ok(comment), change) == Err::<ModifyComment, BackendError>(
            BackendError::NotAuthorized,
        ),
{
}

/// The owner of a comment may delete and change it.
pub proof fn law_own_comment_granted(
    user: SafeUser,
    comment: CommentDB,
    deletion: DeleteComment,
    change: ModifyCommentForm,
)
    requires
        comment.users_fk == user.id,
    ensures
        deletion_verdict(user, Ok(comment), deletion) == Ok::<i32, BackendError>(deletion.id),
        modification_verdict(user, Ok(comment), change) is Ok,
{
}

/// A refresh never accepts the access token that was issued to a user: it
/// fails, and no tokens come of it.
pub proof fn law_refresh_refuses_access_token(
    user_id: i32,
    issued: nat,
    admin: bool,
    token: Seq<char>,
    timestamp: nat,
    config: JWTConfigView,
    validated: Result<Claims, BackendError>,
    r: Result<Tokens, BackendError>,
)
    requires
        signed_token(access_claims(user_id, issued, admin), config.secret) == Some(token),
        validation_outcome(token, config, TokenType::Refresh, validated),
        refresh_outcome(validated, timestamp, config, r),
    ensures
        r is Err,
{
    crate::auth::lemma_kinds_differ();
    if let Ok(claims) = validated {
        assert(crate::auth::is_token_of(
            token,
            access_claims(user_id, issued, admin),
            config.secret,
        ));
    }
}

/// A refresh of the refresh token issued to a user gives, if it gives
/// anything, an access token for the same user with the same administrator
/// flag, issued at the time of the refresh.
pub proof fn law_refresh_keeps_subject_and_flag(
    user_id: i32,
    issued: nat,
    admin: bool,
    token: Seq<char>,
    timestamp: nat,
    config: JWTConfigView,
    validated: Result<Claims, BackendError>,
    r: Result<Tokens, BackendError>,
)
    requires
        signed_token(refresh_claims(user_id, issued, admin), config.secret) == Some(token),
        validation_outcome(token, config, TokenType::Refresh, validated),
        refresh_outcome(validated, timestamp, config, r),
    ensures
        r matches Ok(tokens) ==> signed_token(
            access_claims(user_id, timestamp, admin),
            config.secret,
        ) == Some(tokens.access_token@),
{
    if let Ok(claims) = validated {
        assert(crate::auth::is_token_of(
            token,
            refresh_claims(user_id, issued, admin),
            config.secret,
        ));
        crate::text::lemma_parse_decimal_of_decimal(user_id as int);
    }
}

} // verus!
