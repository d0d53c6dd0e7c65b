//! Credentials and tokens: hashing passwords, issuing signed access and
//! refresh tokens, and validating a token against the kind that an operation
//! expects.

use crate::hashing::{
    check_outcome, hash_alone, hash_error_text, is_engine_hash, password_check, verify_password,
};
use crate::models::user::SafeUser;
use crate::text::{decimal, id_to_string, parse_decimal, parse_id};
use crate::utils::{
    same_text, BackendError, CryptoFailure, DatabaseFailure, TokenErrorKind, TokenFailure,
};
use jsonwebtoken::errors::ErrorKind;
use jsonwebtoken::{decode, encode, Algorithm, DecodingKey, EncodingKey, Header, Validation};
use serde_json::Value;
use vstd::prelude::*;

verus! {

/// Seconds for which an access token is valid after it was issued.
pub const ACCESS_TTL: u64 = 3600;

/// Seconds for which a refresh token is valid after it was issued.
pub const REFRESH_TTL: u64 = 86400;

/// Seconds after issuance before which a refresh token is not yet usable.
pub const REFRESH_DELAY: u64 = 3599;

/// The issuer that every token of this service names.
pub const ISSUER: &'static str = "LEK-backend";

/// The two kinds of token the service issues.
#[derive(Clone, Copy, Debug, PartialEq, Eq, Structural)]
pub enum TokenType {
    Access,
    Refresh,
}

impl TokenType {
    /// The text that stands for this kind in the `token_type` claim.
    pub open spec fn label(self) -> Seq<char> {
        match self {
            TokenType::Access => "access"@,
            TokenType::Refresh => "refresh"@,
        }
    }

    pub fn as_str(&self) -> (r: &'static str)
        ensures
            r@ == self.label(),
    {
        match *self {
            TokenType::Access => "access",
            TokenType::Refresh => "refresh",
        }
    }
}

/// The payload of a token.
#[derive(Debug, Clone, PartialEq, Eq)]
pub struct Claims {
    /// Expiry, in seconds since the epoch.
    pub exp: u64,
    /// Time of issuance.
    pub iat: u64,
    /// Issuer.
    pub iss: String,
    /// Time before which the token is not to be accepted.
    pub nbf: u64,
    /// Subject: the user's id as decimal text.
    pub sub: String,
    /// `access` or `refresh`.
    pub token_type: String,
    /// Whether the user was an administrator when the token was issued.
    pub admin: bool,
}

/// A payload as a mathematical value.
pub struct ClaimsView {
    pub exp: nat,
    pub iat: nat,
    pub iss: Seq<char>,
    pub nbf: nat,
    pub sub: Seq<char>,
    pub token_type: Seq<char>,
    pub admin: bool,
}

impl View for Claims {
    type V = ClaimsView;

    open spec fn view(&self) -> ClaimsView {
        ClaimsView {
            exp: self.exp as nat,
            iat: self.iat as nat,
            iss: self.iss@,
            nbf: self.nbf as nat,
            sub: self.sub@,
            token_type: self.token_type@,
            admin: self.admin,
        }
    }
}

/// The payload of the access token issued to `user_id` at `now`.
pub open spec fn access_claims(user_id: i32, now: nat, admin: bool) -> ClaimsView {
    ClaimsView {
        exp: now + 3600,
        iat: now,
        iss: "LEK-backend"@,
        nbf: now,
        sub: decimal(user_id as int),
        token_type: TokenType::Access.label(),
        admin,
    }
}

/// The payload of the refresh token issued to `user_id` at `now`. It becomes
/// usable one second before the access token issued with it runs out.
pub open spec fn refresh_claims(user_id: i32, now: nat, admin: bool) -> ClaimsView {
    ClaimsView {
        exp: now + 86400,
        iat: now,
        iss: "LEK-backend"@,
        nbf: now + 3599,
        sub: decimal(user_id as int),
        token_type: TokenType::Refresh.label(),
        admin,
    }
}

impl Claims {
    /// Builds the payload of an access token.
    pub fn access(user_id: i32, timestamp: u64, is_admin: bool) -> (r: Claims)
        requires
            timestamp + ACCESS_TTL <= u64::MAX,
        ensures
            r@ == access_claims(user_id, timestamp as nat, is_admin),
    {
        Claims {
            sub: id_to_string(user_id),
            iat: timestamp,
            exp: timestamp + ACCESS_TTL,
            iss: ISSUER.to_owned(),
            nbf: timestamp,
            token_type: TokenType::Access.as_str().to_owned(),
            admin: is_admin,
        }
    }

    /// Builds the payload of a refresh token.
    pub fn refresh(user_id: i32, timestamp: u64, is_admin: bool) -> (r: Claims)
        requires
            timestamp + REFRESH_TTL <= u64::MAX,
        ensures
            r@ == refresh_claims(user_id, timestamp as nat, is_admin),
    {
        Claims {
            sub: id_to_string(user_id),
            iat: timestamp,
            exp: timestamp + REFRESH_TTL,
            iss: ISSUER.to_owned(),
            nbf: timestamp + REFRESH_DELAY,
            token_type: TokenType::Refresh.as_str().to_owned(),
            admin: is_admin,
        }
    }
}

/// The signing secret and the policy by which tokens are validated. Built once
/// and shared read-only.
#[derive(Debug, Clone, PartialEq, Eq)]
pub struct JWTConfig {
    /// The shared secret that signs and verifies tokens.
    pub secret: String,
    /// The issuer that a token must name.
    pub issuer: String,
    /// Whether a token is refused before its not-before time.
    pub validate_nbf: bool,
    /// The claims that a token must carry.
    pub required_claims: Vec<String>,
}

/// A configuration as a mathematical value.
pub struct JWTConfigView {
    pub secret: Seq<char>,
    pub issuer: Seq<char>,
    pub validate_nbf: bool,
    pub required_claims: Seq<Seq<char>>,
}

impl View for JWTConfig {
    type V = JWTConfigView;

    open spec fn view(&self) -> JWTConfigView {
        JWTConfigView {
            secret: self.secret@,
            issuer: self.issuer@,
            validate_nbf: self.validate_nbf,
            required_claims: self.required_claims@.map_values(|name: String| name@),
        }
    }
}

/// The configuration of the service: the shared secret, the service's issuer,
/// not-before enforced, and expiry, not-before, issuer and subject required.
pub open spec fn service_config() -> JWTConfigView {
    JWTConfigView {
        secret: "secret"@,
        issuer: "LEK-backend"@,
        validate_nbf: true,
        required_claims: seq!["exp"@, "nbf"@, "iss"@, "sub"@],
    }
}

impl JWTConfig {
    /// The configuration of the service under a secret of the caller's.
    pub fn new(secret: &str) -> (r: JWTConfig)
        ensures
            r@ == (JWTConfigView { secret: secret@, ..service_config() }),
    {
        let required_claims = vec![
            "exp".to_owned(),
            "nbf".to_owned(),
            "iss".to_owned(),
            "sub".to_owned(),
        ];
        let config = JWTConfig {
            secret: secret.to_owned(),
            issuer: ISSUER.to_owned(),
            validate_nbf: true,
            required_claims,
        };
        assert(config@.required_claims =~= service_config().required_claims);
        config
    }
}

pub fn get_jwt_config() -> (r: JWTConfig)
    ensures
        r@ == service_config(),
{
    JWTConfig::new("secret")
}

/// The error type of the token signing engine.
#[verifier::external_type_specification]
#[verifier::external_body]
pub struct ExTokenEngineError(jsonwebtoken::errors::Error);

/// The token that signing `claims` with `secret` gives: header, payload and
/// HMAC-SHA-256 signature in the compact three-part form. `None` where the
/// engine reports an error.
pub uninterp spec fn signed_token(claims: ClaimsView, secret: Seq<char>) -> Option<Seq<char>>;

/// Whether `token` is what signing `claims` under `secret` gives.
pub open spec fn is_token_of(token: Seq<char>, claims: ClaimsView, secret: Seq<char>) -> bool {
    signed_token(claims, secret) == Some(token)
}

/// Serialises the claims under their fixed field names and signs them with
/// `jsonwebtoken::encode`, under the default header (HS256) and a key made
/// from the secret's bytes. The outcome is a function of the claims and the
/// secret alone; it is named, not described.
#[verifier::external_body]
fn sign_claims(claims: &Claims, secret: &str) -> (r: Result<String, jsonwebtoken::errors::Error>)
    ensures
        match r {
            Ok(token) => signed_token(claims@, secret@) == Some(token@),
            Err(_) => signed_token(claims@, secret@) is None,
        },
{
    let mut payload = serde_json::Map::new();
    payload.insert("exp".to_owned(), claims.exp.into());
    payload.insert("iat".to_owned(), claims.iat.into());
    payload.insert("iss".to_owned(), claims.iss.clone().into());
    payload.insert("nbf".to_owned(), claims.nbf.into());
    payload.insert("sub".to_owned(), claims.sub.clone().into());
    payload.insert("token_type".to_owned(), claims.token_type.clone().into());
    payload.insert("admin".to_owned(), claims.admin.into());
    encode(&Header::default(), &payload, &EncodingKey::from_secret(secret.as_bytes()))
}

/// The engine's own description of one of its errors, by its `Display`.
#[verifier::external_body]
fn token_error_text(error: &jsonwebtoken::errors::Error) -> (r: String) {
    error.to_string()
}

/// The reason of one of the engine's errors, by `Error::kind`: one reason
/// for each kind that has one here, with the claim it names, and `Other` for
/// the rest.
#[verifier::external_body]
fn token_error_kind(error: &jsonwebtoken::errors::Error) -> (r: TokenErrorKind) {
    match error.kind() {
        ErrorKind::InvalidToken => TokenErrorKind::InvalidToken,
        ErrorKind::InvalidSignature => TokenErrorKind::InvalidSignature,
        ErrorKind::MissingRequiredClaim(name) => TokenErrorKind::MissingRequiredClaim(name.clone()),
        ErrorKind::ExpiredSignature => TokenErrorKind::ExpiredSignature,
        ErrorKind::InvalidIssuer => TokenErrorKind::InvalidIssuer,
        ErrorKind::ImmatureSignature => TokenErrorKind::ImmatureSignature,
        ErrorKind::InvalidAlgorithm => TokenErrorKind::InvalidAlgorithm,
        ErrorKind::Base64(_) => TokenErrorKind::Base64,
        ErrorKind::Json(_) => TokenErrorKind::Json,
        ErrorKind::Utf8(_) => TokenErrorKind::Utf8,
        _ => TokenErrorKind::Other,
    }
}

/// The failure that stands for one of the engine's errors.
fn engine_failure(error: &jsonwebtoken::errors::Error) -> (r: TokenFailure)
    ensures
        r is Engine,
{
    TokenFailure::Engine(token_error_kind(error), token_error_text(error))
}

/// The claims found in a token's payload: each one present only if the
/// payload holds it with the type that the claim has.
#[derive(Debug, Clone, PartialEq, Eq)]
pub struct DecodedClaims {
    pub exp: Option<u64>,
    pub iat: Option<u64>,
    pub iss: Option<String>,
    pub nbf: Option<u64>,
    pub sub: Option<String>,
    pub token_type: Option<String>,
    pub admin: Option<bool>,
}

impl DecodedClaims {
    /// Whether every claim is present, and with the values of `claims`.
    pub open spec fn holds(self, claims: ClaimsView) -> bool {
        &&& self.exp matches Some(exp) && exp == claims.exp
        &&& self.iat matches Some(iat) && iat == claims.iat
        &&& self.iss matches Some(iss) && iss@ == claims.iss
        &&& self.nbf matches Some(nbf) && nbf == claims.nbf
        &&& self.sub matches Some(sub) && sub@ == claims.sub
        &&& self.token_type matches Some(token_type) && token_type@ == claims.token_type
        &&& self.admin == Some(claims.admin)
    }

    /// The first claim that is absent, in the order of the payload's fields.
    pub open spec fn first_missing(self) -> Option<Seq<char>> {
        if self.exp is None {
            Some("exp"@)
        } else if self.iat is None {
            Some("iat"@)
        } else if self.iss is None {
            Some("iss"@)
        } else if self.nbf is None {
            Some("nbf"@)
        } else if self.sub is None {
            Some("sub"@)
        } else if self.token_type is None {
            Some("token_type"@)
        } else if self.admin is None {
            Some("admin"@)
        } else {
            None
        }
    }
}

/// What holds of every set of claims that the engine hands out for `token`
/// under `config`: they are the claims that were signed into the token, if it
/// was made by signing claims with the same secret, and an issuer among them
/// is the issuer that the configuration expects.
pub open spec fn decoded_faithfully(
    token: Seq<char>,
    config: JWTConfigView,
    decoded: DecodedClaims,
) -> bool {
    &&& forall|claims: ClaimsView| #[trigger]
        is_token_of(token, claims, config.secret) ==> decoded.holds(claims)
    &&& decoded.iss matches Some(iss) ==> iss@ == config.issuer
}

/// Verifies and validates a token with `jsonwebtoken::decode`: HS256 only,
/// the key made from the secret's bytes, the issuer and the required claims
/// as configured, expiry always checked, not-before as configured, both
/// against the system clock with the engine's own leeway. On success the seven claims are read from the
/// payload, each present only if it has its type. The engine decides by the
/// clock whether it accepts, so nothing is promised of that. Two things are
/// claimed of what it hands out: it hands out the payload that it verified,
/// so for a token made by `sign_claims` under the same secret these are the
/// claims that were signed; and it accepts an issuer only if it is the one
/// it was given.
#[verifier::external_body]
fn decode_claims(token: &str, config: &JWTConfig) -> (r: Result<
    DecodedClaims,
    jsonwebtoken::errors::Error,
>)
    ensures
        r matches Ok(decoded) ==> decoded_faithfully(token@, config@, decoded),
{
    let mut policy = Validation::new(Algorithm::HS256);
    policy.set_issuer(&[config.issuer.as_str()]);
    policy.validate_nbf = config.validate_nbf;
    policy.set_required_spec_claims(&config.required_claims);
    let key = DecodingKey::from_secret(config.secret.as_bytes());
    let payload = decode::<Value>(token, &key, &policy)?.claims;
    let number = |name| payload.get(name).and_then(Value::as_u64);
    let text = |name| payload.get(name).and_then(Value::as_str).map(str::to_owned);
    Ok(DecodedClaims {
        exp: number("exp"), iat: number("iat"), nbf: number("nbf"),
        iss: text("iss"), sub: text("sub"), token_type: text("token_type"),
        admin: payload.get("admin").and_then(Value::as_bool),
    })
}

impl Claims {
    /// Makes a payload of decoded claims, if none of them is absent.
    pub fn from_decoded(decoded: DecodedClaims) -> (r: Result<Claims, TokenFailure>)
        ensures
            match r {
                Ok(claims) => decoded.first_missing() is None && decoded.holds(claims@),
                Err(failure) => failure matches TokenFailure::MissingClaim(name)
                    && decoded.first_missing() == Some(name@),
            },
    {
        let DecodedClaims { exp, iat, iss, nbf, sub, token_type, admin } = decoded;
        match (exp, iat, iss, nbf, sub, token_type, admin) {
            (Some(exp), Some(iat), Some(iss), Some(nbf), Some(sub), Some(token_type), Some(admin)) => {
                Ok(Claims { exp, iat, iss, nbf, sub, token_type, admin })
            },
            (None, _, _, _, _, _, _) => Err(TokenFailure::MissingClaim("exp".to_owned())),
            (_, None, _, _, _, _, _) => Err(TokenFailure::MissingClaim("iat".to_owned())),
            (_, _, None, _, _, _, _) => Err(TokenFailure::MissingClaim("iss".to_owned())),
            (_, _, _, None, _, _, _) => Err(TokenFailure::MissingClaim("nbf".to_owned())),
            (_, _, _, _, None, _, _) => Err(TokenFailure::MissingClaim("sub".to_owned())),
            (_, _, _, _, _, None, _) => Err(TokenFailure::MissingClaim("token_type".to_owned())),
            (_, _, _, _, _, _, None) => Err(TokenFailure::MissingClaim("admin".to_owned())),
        }
    }
}

/// The verdict on decoded claims for an operation that expects tokens of
/// `token_type`: the claims, if all are present and of that kind; the missing
/// claim, if one is absent; wrong credentials, if the kind is another.
pub fn check_claims(decoded: DecodedClaims, token_type: TokenType) -> (r: Result<
    Claims,
    BackendError,
>)
    ensures
        match r {
            Ok(claims) => {
                &&& decoded.first_missing() is None
                &&& decoded.holds(claims@)
                &&& claims@.token_type == token_type.label()
            },
            Err(BackendError::TokenError(failure)) => {
                &&& failure matches TokenFailure::MissingClaim(name)
                &&& decoded.first_missing() == Some(name@)
            },
            Err(BackendError::WrongCredentials) => {
                &&& decoded.first_missing() is None
                &&& decoded.token_type->Some_0@ != token_type.label()
            },
            Err(_) => false,
        },
{
    match Claims::from_decoded(decoded) {
        Err(failure) => Err(BackendError::TokenError(failure)),
        Ok(claims) => {
            if same_text(claims.token_type.as_str(), token_type.as_str()) {
                Ok(claims)
            } else {
                Err(BackendError::WrongCredentials)
            }
        },
    }
}

/// What signing `claims` under `secret` may return: the token that the
/// engine gives for them, or the engine's failure where it gives none.
pub open spec fn signing_outcome(
    claims: ClaimsView,
    secret: Seq<char>,
    r: Result<String, TokenFailure>,
) -> bool {
    match r {
        Ok(token) => signed_token(claims, secret) == Some(token@),
        Err(failure) => signed_token(claims, secret) is None && failure is Engine,
    }
}

/// Serialises and signs a payload.
pub fn sign(claims: &Claims, jwt_conf: &JWTConfig) -> (r: Result<String, TokenFailure>)
    ensures
        signing_outcome(claims@, jwt_conf@.secret, r),
{
    match sign_claims(claims, jwt_conf.secret.as_str()) {
        Ok(token) => Ok(token),
        Err(error) => Err(engine_failure(&error)),
    }
}

/// Issues the access token of `user_id` at `timestamp`: valid from then on,
/// for an hour.
pub fn generate_access_token(
    user_id: i32,
    timestamp: u64,
    jwt_conf: &JWTConfig,
    is_admin: bool,
) -> (r: Result<String, TokenFailure>)
    requires
        timestamp + ACCESS_TTL <= u64::MAX,
    ensures
        signing_outcome(access_claims(user_id, timestamp as nat, is_admin), jwt_conf@.secret, r),
{
    let access_claim = Claims::access(user_id, timestamp, is_admin);
    sign(&access_claim, jwt_conf)
}

/// Issues the refresh token of `user_id` at `timestamp`: valid for a day, and
/// usable only once the access token issued with it is about to run out.
pub fn generate_refresh_token(
    user_id: i32,
    timestamp: u64,
    jwt_conf: &JWTConfig,
    is_admin: bool,
) -> (r: Result<String, TokenFailure>)
    requires
        timestamp + REFRESH_TTL <= u64::MAX,
    ensures
        signing_outcome(refresh_claims(user_id, timestamp as nat, is_admin), jwt_conf@.secret, r),
{
    let refresh_claim = Claims::refresh(user_id, timestamp, is_admin);
    sign(&refresh_claim, jwt_conf)
}

/// What validating `token` for an operation that expects `token_type` may
/// return. Accepted claims are of the expected kind, name the configured
/// issuer, and are the claims that were signed into the token. A refusal is
/// either a token failure (the engine's, or a missing claim) or wrong
/// credentials; the latter only for a token of another kind.
pub open spec fn validation_outcome(
    token: Seq<char>,
    config: JWTConfigView,
    token_type: TokenType,
    r: Result<Claims, BackendError>,
) -> bool {
    match r {
        Ok(claims) => {
            &&& claims@.token_type == token_type.label()
            &&& claims@.iss == config.issuer
            &&& forall|signed: ClaimsView| #[trigger]
                is_token_of(token, signed, config.secret) ==> claims@ == signed
        },
        Err(BackendError::TokenError(_)) => true,
        Err(BackendError::WrongCredentials) => forall|signed: ClaimsView| #[trigger]
            is_token_of(token, signed, config.secret) ==> signed.token_type != token_type.label(),
        Err(_) => false,
    }
}

/// Validates a token: the signature, the required claims, expiry and
/// not-before against the clock, the issuer, and last the kind.
pub fn validate_token(token: &str, jwt_config: &JWTConfig, token_type: TokenType) -> (r: Result<
    Claims,
    BackendError,
>)
    ensures
        validation_outcome(token@, jwt_config@, token_type, r),
{
    match decode_claims(token, jwt_config) {
        Err(error) => Err(BackendError::TokenError(engine_failure(&error))),
        Ok(decoded) => check_claims(decoded, token_type),
    }
}

/// Hashes a password under a fresh random salt. It fails only where the
/// engine does, and the hash it gives passes the check for that password.
pub fn get_hash(password: &str) -> (r: Result<String, CryptoFailure>)
    ensures
        r matches Ok(hash) ==> is_engine_hash(hash@) && password_check(password@, hash@) == Some(
            true,
        ),
{
    hash_alone(crate::hashing::get_hash_and_salt(password))
}

/// Whether the password reproduces the hash. A hash that cannot be read is an
/// error, never a match.
pub fn check_hash(password: &str, hash: &str) -> (r: Result<bool, CryptoFailure>)
    ensures
        check_outcome(password@, hash@, r),
{
    match verify_password(password, hash) {
        Ok(matches) => Ok(matches),
        Err(error) => Err(CryptoFailure { message: hash_error_text(&error) }),
    }
}

/// The transport status that goes with a refusal of the guard.
#[derive(Clone, Copy, Debug, PartialEq, Eq, Structural)]
pub enum Status {
    BadRequest,
    Unauthorized,
    InternalServerError,
}

/// What the guard decides for a request.
#[derive(Debug, Clone, PartialEq, Eq)]
pub enum Outcome {
    /// The request is authenticated as this user.
    Success(SafeUser),
    /// The request is refused.
    Failure(Status, BackendError),
    /// The request brings no credential and goes on anonymously.
    Forward,
}

/// Where the guard stands once it has read the request: done, or in need of
/// the user that the token's subject names.
#[derive(Debug, Clone, PartialEq, Eq)]
pub enum GuardStep {
    Finished(Outcome),
    LookUp(i32),
}

/// The scheme prefix of an `Authorization` header that carries a token.
pub const BEARER_PREFIX: &'static str = "Bearer ";

/// Takes a prefix off a text: the rest of the text if it starts with the
/// prefix, nothing if it does not.
pub fn strip_prefix<'a>(text: &'a str, prefix: &str) -> (r: Option<&'a str>)
    ensures
        match r {
            Some(rest) => prefix@.is_prefix_of(text@) && rest@ == text@.skip(prefix@.len() as int),
            None => !prefix@.is_prefix_of(text@),
        },
{
    let length = text.unicode_len();
    let prefix_length = prefix.unicode_len();
    if prefix_length > length {
        return None;
    }
    let mut i: usize = 0;
    while i < prefix_length
        invariant
            i <= prefix_length <= length,
            length == text@.len(),
            prefix_length == prefix@.len(),
            forall|j: int| 0 <= j < i ==> text@[j] == prefix@[j],
        decreases prefix_length - i,
    {
        if text.get_char(i) != prefix.get_char(i) {
            assert(text@.subrange(0, prefix@.len() as int)[i as int] != prefix@[i as int]);
            return None;
        }
        i += 1;
    }
    assert(prefix@ =~= text@.subrange(0, prefix@.len() as int));
    Some(text.substring_char(prefix_length, length))
}

/// The token that an `Authorization` header carries: what follows the bearer
/// prefix, if the header starts with it.
pub open spec fn bearer_part(header: Seq<char>) -> Option<Seq<char>> {
    if "Bearer "@.is_prefix_of(header) {
        Some(header.skip("Bearer "@.len() as int))
    } else {
        None
    }
}

pub fn bearer_token<'a>(header: &'a str) -> (r: Option<&'a str>)
    ensures
        match r {
            Some(token) => bearer_part(header@) == Some(token@),
            None => bearer_part(header@) is None,
        },
{
    strip_prefix(header, BEARER_PREFIX)
}

/// The status of a request whose token was refused: a bad request if what
/// came is no token at all or lacks a claim, unauthorized for a token that is
/// not valid (signature, expiry, issuer, kind).
pub open spec fn refusal_status(error: BackendError) -> Status {
    match error {
        BackendError::TokenError(failure) if failure.malformed_token() => Status::BadRequest,
        _ => Status::Unauthorized,
    }
}

/// How the guard goes on from the verdict on the token: a refusal ends it,
/// with the status that goes with the refusal; a subject that is no user id
/// is a bad request; otherwise the user with that id is to be looked up.
pub open spec fn step_after_validation(validated: Result<Claims, BackendError>) -> GuardStep {
    match validated {
        Ok(claims) => match parse_decimal(claims.sub@) {
            Some(user_id) => GuardStep::LookUp(user_id),
            None => GuardStep::Finished(
                Outcome::Failure(Status::BadRequest, BackendError::NotAuthorized),
            ),
        },
        Err(error) => GuardStep::Finished(Outcome::Failure(refusal_status(error), error)),
    }
}

pub fn subject_step(validated: Result<Claims, BackendError>) -> (r: GuardStep)
    ensures
        r == step_after_validation(validated),
{
    match validated {
        Ok(claims) => match parse_id(claims.sub.as_str()) {
            Some(user_id) => GuardStep::LookUp(user_id),
            None => GuardStep::Finished(
                Outcome::Failure(Status::BadRequest, BackendError::NotAuthorized),
            ),
        },
        Err(error) => {
            let status = match &error {
                BackendError::TokenError(failure) => if failure.is_malformed() {
                    Status::BadRequest
                } else {
                    Status::Unauthorized
                },
                _ => Status::Unauthorized,
            };
            GuardStep::Finished(Outcome::Failure(status, error))
        },
    }
}

/// The status of a request whose user could not be fetched: unauthorized if
/// the user no longer exists, a server error for any other failure.
pub open spec fn lookup_failure_status(error: BackendError) -> Status {
    if error.is_not_found() {
        Status::Unauthorized
    } else {
        Status::InternalServerError
    }
}

/// How the guard ends once the user was looked up.
pub open spec fn outcome_after_lookup(lookup: Result<SafeUser, BackendError>) -> Outcome {
    match lookup {
        Ok(user) => Outcome::Success(user),
        Err(error) => Outcome::Failure(lookup_failure_status(error), error),
    }
}

pub fn identity_outcome(lookup: Result<SafeUser, BackendError>) -> (r: Outcome)
    ensures
        r == outcome_after_lookup(lookup),
{
    match lookup {
        Ok(user) => Outcome::Success(user),
        Err(error) => {
            let status = match &error {
                BackendError::DatabaseError(DatabaseFailure::NotFound) => Status::Unauthorized,
                _ => Status::InternalServerError,
            };
            Outcome::Failure(status, error)
        },
    }
}

/// What the guard may decide on reading a request. Without a header the
/// request goes on anonymously. A header without the bearer prefix is a bad
/// request. If the configuration or the database is not at hand, the guard
/// fails with a server error. Otherwise it goes on from some verdict that
/// validating the token as an access token may give.
pub open spec fn guard_step(
    authorization: Option<Seq<char>>,
    config: Option<JWTConfigView>,
    database_ready: bool,
    r: GuardStep,
) -> bool {
    match authorization {
        None => r == GuardStep::Finished(Outcome::Forward),
        Some(header) => match bearer_part(header) {
            None => r == GuardStep::Finished(
                Outcome::Failure(Status::BadRequest, BackendError::NotAuthorized),
            ),
            Some(token) => match config {
                Some(policy) if database_ready => exists|validated: Result<Claims, BackendError>|
                    #![auto]
                    validation_outcome(token, policy, TokenType::Access, validated) && r
                        == step_after_validation(validated),
                _ => r == GuardStep::Finished(
                    Outcome::Failure(Status::InternalServerError, BackendError::UnknownError),
                ),
            },
        },
    }
}

pub open spec fn header_view(authorization: Option<&str>) -> Option<Seq<char>> {
    match authorization {
        None => None,
        Some(header) => Some(header@),
    }
}

pub open spec fn config_view(config: Option<&JWTConfig>) -> Option<JWTConfigView> {
    match config {
        None => None,
        Some(held) => Some(held@),
    }
}

impl SafeUser {
    /// The guard's reading of a request: the `Authorization` header if there
    /// is one, the configuration if it is at hand, and whether a database
    /// connection is. Only access tokens authenticate a request.
    pub fn from_request(
        authorization: Option<&str>,
        config: Option<&JWTConfig>,
        database_ready: bool,
    ) -> (r: GuardStep)
        ensures
            guard_step(header_view(authorization), config_view(config), database_ready, r),
    {
        match authorization {
            Some(token_str) => {
                let parsed_token = match bearer_token(token_str) {
                    None => {
                        return GuardStep::Finished(
                            Outcome::Failure(Status::BadRequest, BackendError::NotAuthorized),
                        );
                    },
                    Some(parsed) => parsed,
                };
                match config {
                    Some(conf) if database_ready => {
                        let validated = validate_token(parsed_token, conf, TokenType::Access);
                        subject_step(validated)
                    },
                    _ => GuardStep::Finished(
                        Outcome::Failure(Status::InternalServerError, BackendError::UnknownError),
                    ),
                }
            },
            None => GuardStep::Finished(Outcome::Forward),
        }
    }
}

/// The two kinds of token have different labels.
pub proof fn lemma_kinds_differ()
    ensures
        TokenType::Access.label() != TokenType::Refresh.label(),
{
    reveal_strlit("access");
    reveal_strlit("refresh");
    assert("access"@.len() != "refresh"@.len());
}

/// Validating the access token that was issued to a user never fails for
/// its kind, and if it succeeds it returns the claims that were issued: the
/// subject is the user's id as decimal text and reads back as that id, and
/// the administrator flag is preserved.
pub proof fn law_access_token_keeps_claims(
    user_id: i32,
    issued: nat,
    admin: bool,
    token: Seq<char>,
    config: JWTConfigView,
    r: Result<Claims, BackendError>,
)
    requires
        is_token_of(token, access_claims(user_id, issued, admin), config.secret),
        validation_outcome(token, config, TokenType::Access, r),
    ensures
        !(r matches Err(BackendError::WrongCredentials)),
        r matches Ok(claims) ==> {
            &&& claims@ == access_claims(user_id, issued, admin)
            &&& claims@.sub == decimal(user_id as int)
            &&& parse_decimal(claims@.sub) == Some(user_id)
            &&& claims@.admin == admin
        },
{
    crate::text::lemma_parse_decimal_of_decimal(user_id as int);
}

/// Validating a refresh token where an access token is expected fails,
/// whatever the signature and the clock say.
pub proof fn law_refresh_token_is_no_access_token(
    user_id: i32,
    issued: nat,
    admin: bool,
    token: Seq<char>,
    config: JWTConfigView,
    r: Result<Claims, BackendError>,
)
    requires
        is_token_of(token, refresh_claims(user_id, issued, admin), config.secret),
        validation_outcome(token, config, TokenType::Access, r),
    ensures
        r is Err,
{
    lemma_kinds_differ();
}

/// A request without an `Authorization` header goes on anonymously: the guard
/// forwards it and reports no error, whatever else holds.
pub proof fn law_no_header_forwards(
    config: Option<JWTConfigView>,
    database_ready: bool,
    r: GuardStep,
)
    requires
        guard_step(None, config, database_ready, r),
    ensures
        r == GuardStep::Finished(Outcome::Forward),
{
}

/// With the configuration and the database at hand, a request that brings an
/// `Authorization` header is never answered with a server error on reading
/// it, and never forwarded. It is a bad request if the header lacks the
/// bearer prefix, if what follows the prefix is no token, or if the subject
/// is no user id; it is unauthorized if the token is one but is not valid.
pub proof fn law_header_is_judged(header: Seq<char>, config: JWTConfigView, r: GuardStep)
    requires
        guard_step(Some(header), Some(config), true, r),
    ensures
        match r {
            GuardStep::LookUp(_) => bearer_part(header) is Some,
            GuardStep::Finished(Outcome::Failure(Status::BadRequest, error)) => {
                ||| error == BackendError::NotAuthorized
                ||| error matches BackendError::TokenError(failure) && failure.malformed_token()
            },
            GuardStep::Finished(Outcome::Failure(Status::Unauthorized, error)) => {
                &&& bearer_part(header) is Some
                &&& error is WrongCredentials || (error matches BackendError::TokenError(failure)
                    && !failure.malformed_token())
            },
            _ => false,
        },
        bearer_part(header) is None ==> r == GuardStep::Finished(
            Outcome::Failure(Status::BadRequest, BackendError::NotAuthorized),
        ),
{
}

/// The guard authenticates the access token that was issued to a user as
/// that user, or refuses it: if the token is accepted, the user looked up is
/// the one it was issued to.
pub proof fn law_guard_finds_issued_user(
    user_id: i32,
    issued: nat,
    admin: bool,
    header: Seq<char>,
    config: JWTConfigView,
    r: GuardStep,
)
    requires
        bearer_part(header) matches Some(token) && is_token_of(
            token,
            access_claims(user_id, issued, admin),
            config.secret,
        ),
        guard_step(Some(header), Some(config), true, r),
    ensures
        r matches GuardStep::LookUp(found) ==> found == user_id,
{
    crate::text::lemma_parse_decimal_of_decimal(user_id as int);
}

/// The guard never accepts a refresh token: a request that brings one is
/// refused before any user is looked up.
pub proof fn law_guard_refuses_refresh_token(
    user_id: i32,
    issued: nat,
    admin: bool,
    header: Seq<char>,
    config: JWTConfigView,
    r: GuardStep,
)
    requires
        bearer_part(header) matches Some(token) && is_token_of(
            token,
            refresh_claims(user_id, issued, admin),
            config.secret,
        ),
        guard_step(Some(header), Some(config), true, r),
    ensures
        r matches GuardStep::Finished(Outcome::Failure(status, _)) && status
            != Status::InternalServerError,
{
    lemma_kinds_differ();
}

/// Once the user was looked up, the guard ends with a server error only for
/// a failure other than the user's absence; a user who no longer exists is
/// unauthorized.
pub proof fn law_lookup_failures(lookup: Result<SafeUser, BackendError>)
    ensures
        lookup matches Ok(user) ==> outcome_after_lookup(lookup) == Outcome::Success(user),
        lookup matches Err(error) ==> outcome_after_lookup(lookup) == Outcome::Failure(
            if error == BackendError::DatabaseError(DatabaseFailure::NotFound) {
                Status::Unauthorized
            } else {
                Status::InternalServerError
            },
            error,
        ),
{
}

} // verus!
