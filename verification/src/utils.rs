//! The failures of the service, and the text each one shows to a caller.

use vstd::prelude::*;
use vstd::string::*;

verus! {

/// What went wrong inside the password hashing engine, in its own words.
#[derive(Debug, Clone, PartialEq, Eq)]
pub struct CryptoFailure {
    pub message: String,
}

/// The reasons for which the token engine refuses.
#[derive(Debug, Clone, PartialEq, Eq)]
pub enum TokenErrorKind {
    /// The text does not have the three parts of a token.
    InvalidToken,
    /// The signature does not match.
    InvalidSignature,
    /// A claim that the policy requires is absent.
    MissingRequiredClaim(String),
    /// The expiry has passed.
    ExpiredSignature,
    /// The issuer is not the expected one.
    InvalidIssuer,
    /// The not-before time has not come yet.
    ImmatureSignature,
    /// The header names an algorithm that the policy does not allow.
    InvalidAlgorithm,
    /// A part is not base64.
    Base64,
    /// A part is not the JSON expected.
    Json,
    /// A part is not UTF-8.
    Utf8,
    /// Any other reason.
    Other,
}

/// Why a token was not accepted or could not be produced.
#[derive(Debug, Clone, PartialEq, Eq)]
pub enum TokenFailure {
    /// The token engine refused, for this reason and with this description
    /// of its own.
    Engine(TokenErrorKind, String),
    /// The payload lacks the named claim, or holds it with the wrong type.
    MissingClaim(String),
}

/// The class of a failure that the database reported for a statement.
#[derive(Debug, Clone, PartialEq, Eq)]
pub enum DatabaseErrorKind {
    UniqueViolation,
    ForeignKeyViolation,
    /// Any other class, by its name.
    Other(String),
}

/// What the database said about a failed statement.
#[derive(Debug, Clone, PartialEq, Eq)]
pub struct DatabaseErrorInformation {
    pub message: String,
    pub details: Option<String>,
    pub constraint_name: Option<String>,
}

/// A failure of the storage layer.
#[derive(Debug, Clone, PartialEq, Eq)]
pub enum DatabaseFailure {
    /// The row asked for does not exist.
    NotFound,
    /// The database refused a statement.
    DatabaseError(DatabaseErrorKind, DatabaseErrorInformation),
    /// Anything else, by its description.
    Other(String),
}

#[derive(Debug, Clone, PartialEq, Eq)]
pub enum BackendError {
    CryptoError(CryptoFailure),
    DatabaseError(DatabaseFailure),
    TokenError(TokenFailure),
    UnknownError,
    NotAuthorized,
    WrongCredentials,
}

/// The text that `{:?}` formatting gives for a string: the string in double
/// quotes, with the characters that need it escaped.
pub uninterp spec fn debug_quoted(s: Seq<char>) -> Seq<char>;

/// Formats a string with `{:?}`, as `format!` of the standard library does.
/// The result is named, not described: it is whatever that formatting gives.
#[verifier::external_body]
fn debug_text(s: &str) -> (r: String)
    ensures
        r@ == debug_quoted(s@),
{
    format!("{:?}", s)
}

/// Whether two texts hold the same characters.
pub fn same_text(a: &str, b: &str) -> (r: bool)
    ensures
        r == (a@ == b@),
{
    a.to_owned() == b.to_owned()
}

/// The text that `{:?}` formatting gives for an optional string.
pub open spec fn debug_optional(s: Option<Seq<char>>) -> Seq<char> {
    match s {
        None => "None"@,
        Some(t) => "Some("@ + debug_quoted(t) + ")"@,
    }
}

fn debug_optional_text(s: &Option<String>) -> (r: String)
    ensures
        r@ == debug_optional(optional_view(*s)),
{
    match s {
        None => "None".to_owned(),
        Some(t) => {
            let mut out = "Some(".to_owned();
            let quoted = debug_text(t.as_str());
            out.append(quoted.as_str());
            out.append(")");
            out
        },
    }
}

pub open spec fn optional_view(s: Option<String>) -> Option<Seq<char>> {
    match s {
        None => None,
        Some(t) => Some(t@),
    }
}

impl TokenErrorKind {
    /// Whether the reason is that the text is no token at all, or no token
    /// with the claims required, rather than a token that is not valid.
    pub open spec fn is_malformed(self) -> bool {
        match self {
            TokenErrorKind::InvalidToken => true,
            TokenErrorKind::MissingRequiredClaim(_) => true,
            TokenErrorKind::Base64 => true,
            TokenErrorKind::Json => true,
            TokenErrorKind::Utf8 => true,
            _ => false,
        }
    }
}

impl TokenFailure {
    /// Whether the token is refused for its shape: it is no token of three
    /// parts that decode, or its payload lacks a claim.
    pub open spec fn malformed_token(self) -> bool {
        match self {
            TokenFailure::Engine(kind, _) => kind.is_malformed(),
            TokenFailure::MissingClaim(_) => true,
        }
    }

    pub fn is_malformed(&self) -> (r: bool)
        ensures
            r == self.malformed_token(),
    {
        match self {
            TokenFailure::Engine(kind, _) => match kind {
                TokenErrorKind::InvalidToken => true,
                TokenErrorKind::MissingRequiredClaim(_) => true,
                TokenErrorKind::Base64 => true,
                TokenErrorKind::Json => true,
                TokenErrorKind::Utf8 => true,
                _ => false,
            },
            TokenFailure::MissingClaim(_) => true,
        }
    }

    pub open spec fn text(self) -> Seq<char> {
        match self {
            TokenFailure::Engine(_, description) => description@,
            TokenFailure::MissingClaim(name) => "JSON error: missing field `"@ + name@ + "`"@,
        }
    }

    pub fn message(&self) -> (r: String)
        ensures
            r@ == self.text(),
    {
        match self {
            TokenFailure::Engine(_, description) => description.clone(),
            TokenFailure::MissingClaim(name) => {
                let mut out = "JSON error: missing field `".to_owned();
                out.append(name.as_str());
                out.append("`");
                out
            },
        }
    }
}

impl DatabaseFailure {
    /// The text shown for a violated uniqueness constraint.
    pub open spec fn unique_violation_text(constraint: Option<Seq<char>>) -> Seq<char> {
        if constraint == Some("users_username_uindex"@) {
            "Username already taken"@
        } else if constraint == Some("users_nickname_uindex"@) {
            "Nickname already taken"@
        } else {
            "Unknown uniqueViolation happened! Contact the administrator"@
        }
    }

    /// The text shown for a violated foreign key.
    pub open spec fn foreign_key_violation_text(constraint: Option<Seq<char>>) -> Seq<char> {
        if constraint == Some("comments_questions_id_fk"@) {
            "No such question found"@
        } else if constraint == Some("comments_users_id_fk"@) {
            "No such user found"@
        } else {
            "Unknown foreignKeyViolation happened! Contact the administrator"@
        }
    }

    /// The text shown for any other refusal: the class, then the message, the
    /// details and the constraint as `{:?}` formats them.
    pub open spec fn other_kind_text(
        kind: Seq<char>,
        information: DatabaseErrorInformation,
    ) -> Seq<char> {
        kind + ", message "@ + debug_quoted(information.message@) + ", details "@ + debug_optional(
            optional_view(information.details),
        ) + ", column_name "@ + debug_optional(optional_view(information.constraint_name))
    }

    pub open spec fn text(self) -> Seq<char> {
        match self {
            DatabaseFailure::NotFound => "Resource not found"@,
            DatabaseFailure::DatabaseError(kind, information) => match kind {
                DatabaseErrorKind::UniqueViolation => Self::unique_violation_text(
                    optional_view(information.constraint_name),
                ),
                DatabaseErrorKind::ForeignKeyViolation => Self::foreign_key_violation_text(
                    optional_view(information.constraint_name),
                ),
                DatabaseErrorKind::Other(name) => Self::other_kind_text(name@, information),
            },
            DatabaseFailure::Other(description) => description@,
        }
    }

    pub fn message(&self) -> (r: String)
        ensures
            r@ == self.text(),
    {
        match self {
            DatabaseFailure::NotFound => "Resource not found".to_owned(),
            DatabaseFailure::DatabaseError(kind, information) => match kind {
                DatabaseErrorKind::UniqueViolation => {
                    if constraint_is(&information.constraint_name, "users_username_uindex") {
                        "Username already taken".to_owned()
                    } else if constraint_is(&information.constraint_name, "users_nickname_uindex") {
                        "Nickname already taken".to_owned()
                    } else {
                        "Unknown uniqueViolation happened! Contact the administrator".to_owned()
                    }
                },
                DatabaseErrorKind::ForeignKeyViolation => {
                    if constraint_is(&information.constraint_name, "comments_questions_id_fk") {
                        "No such question found".to_owned()
                    } else if constraint_is(&information.constraint_name, "comments_users_id_fk") {
                        "No such user found".to_owned()
                    } else {
                        "Unknown foreignKeyViolation happened! Contact the administrator".to_owned()
                    }
                },
                DatabaseErrorKind::Other(name) => {
                    let mut out = name.clone();
                    out.append(", message ");
                    let message = debug_text(information.message.as_str());
                    out.append(message.as_str());
                    out.append(", details ");
                    let details = debug_optional_text(&information.details);
                    out.append(details.as_str());
                    out.append(", column_name ");
                    let constraint = debug_optional_text(&information.constraint_name);
                    out.append(constraint.as_str());
                    out
                },
            },
            DatabaseFailure::Other(description) => description.clone(),
        }
    }
}

fn constraint_is(constraint: &Option<String>, name: &str) -> (r: bool)
    ensures
        r == (optional_view(*constraint) == Some(name@)),
{
    match constraint {
        None => false,
        Some(held) => same_text(held.as_str(), name),
    }
}

impl BackendError {
    /// The text that a caller is shown for this failure.
    pub open spec fn text(self) -> Seq<char> {
        match self {
            BackendError::CryptoError(failure) => failure.message@,
            BackendError::DatabaseError(failure) => failure.text(),
            BackendError::TokenError(failure) => failure.text(),
            BackendError::UnknownError => "Unknown error"@,
            BackendError::NotAuthorized => "You are not authorized!"@,
            BackendError::WrongCredentials => "Wrong credentials given!"@,
        }
    }

    pub fn message(&self) -> (r: String)
        ensures
            r@ == self.text(),
    {
        match self {
            BackendError::CryptoError(failure) => failure.message.clone(),
            BackendError::DatabaseError(failure) => failure.message(),
            BackendError::TokenError(failure) => failure.message(),
            BackendError::UnknownError => "Unknown error".to_owned(),
            BackendError::NotAuthorized => "You are not authorized!".to_owned(),
            BackendError::WrongCredentials => "Wrong credentials given!".to_owned(),
        }
    }

    pub fn from_crypto(err: CryptoFailure) -> (r: BackendError)
        ensures
            r == BackendError::CryptoError(err),
    {
        BackendError::CryptoError(err)
    }

    pub fn from_database(err: DatabaseFailure) -> (r: BackendError)
        ensures
            r == BackendError::DatabaseError(err),
    {
        BackendError::DatabaseError(err)
    }

    pub fn from_token(err: TokenFailure) -> (r: BackendError)
        ensures
            r == BackendError::TokenError(err),
    {
        BackendError::TokenError(err)
    }

    /// Whether this is the storage layer saying that a row does not exist.
    pub open spec fn is_not_found(self) -> bool {
        self == BackendError::DatabaseError(DatabaseFailure::NotFound)
    }
}

} // verus!
