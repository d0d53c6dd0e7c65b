use lek_backend::auth::{
    check_claims, generate_access_token, generate_refresh_token, get_jwt_config, sign,
    validate_token, Claims, DecodedClaims, JWTConfig, TokenType,
};
use lek_backend::utils::{BackendError, TokenErrorKind, TokenFailure};

fn now() -> u64 {
    jsonwebtoken::get_current_timestamp()
}

fn engine_error(result: Result<Claims, BackendError>) -> (TokenErrorKind, String) {
    match result {
        Err(BackendError::TokenError(TokenFailure::Engine(kind, text))) => (kind, text),
        other => panic!("expected a failure of the token engine, got {:?}", other),
    }
}

fn refusal(kind: TokenErrorKind, text: &str) -> (TokenErrorKind, String) {
    (kind, text.to_owned())
}

#[test]
fn test_validation_access() {
    let config = get_jwt_config();
    let token = generate_access_token(2, jsonwebtoken::get_current_timestamp(), &config, false)
        .unwrap();
    let validation_setup = validate_token(&token, &config, TokenType::Access);
    assert!(validation_setup.is_ok());
    assert!(validation_setup.unwrap().token_type.eq("access"))
}

#[test]
fn test_validation_refresh() {
    let mut config = get_jwt_config();
    config.validate_nbf = false;
    let token = generate_refresh_token(2, jsonwebtoken::get_current_timestamp(), &config, false)
        .unwrap();
    let validation_setup = validate_token(&token, &config, TokenType::Refresh);
    assert!(validation_setup.is_ok());
}

#[test]
fn test_validation_refresh_not_access() {
    let mut config = get_jwt_config();
    config.validate_nbf = false;
    let token = generate_refresh_token(2, jsonwebtoken::get_current_timestamp(), &config, false)
        .unwrap();
    let validation_setup = validate_token(&token, &config, TokenType::Access);
    assert!(validation_setup.is_err());
}

#[test]
fn token_kind_labels() {
    assert_eq!(TokenType::Access.as_str(), "access");
    assert_eq!(TokenType::Refresh.as_str(), "refresh");
}

#[test]
fn service_configuration() {
    let config = get_jwt_config();
    assert_eq!(config.secret, "secret");
    assert_eq!(config.issuer, "LEK-backend");
    assert!(config.validate_nbf);
    assert_eq!(config.required_claims, vec!["exp", "nbf", "iss", "sub"]);
}

#[test]
fn access_claims_follow_the_formulas() {
    let claims = Claims::access(17, 1_000_000, true);
    assert_eq!(claims.sub, "17");
    assert_eq!(claims.iat, 1_000_000);
    assert_eq!(claims.exp, 1_003_600);
    assert_eq!(claims.nbf, 1_000_000);
    assert_eq!(claims.iss, "LEK-backend");
    assert_eq!(claims.token_type, "access");
    assert!(claims.admin);
}

#[test]
fn refresh_claims_follow_the_formulas() {
    let claims = Claims::refresh(-4, 1_000_000, false);
    assert_eq!(claims.sub, "-4");
    assert_eq!(claims.iat, 1_000_000);
    assert_eq!(claims.exp, 1_086_400);
    assert_eq!(claims.nbf, 1_003_599);
    assert_eq!(claims.iss, "LEK-backend");
    assert_eq!(claims.token_type, "refresh");
    assert!(!claims.admin);
}

#[test]
fn claims_at_the_largest_timestamps() {
    assert_eq!(Claims::access(1, u64::MAX - 3600, false).exp, u64::MAX);
    let refresh = Claims::refresh(1, u64::MAX - 86400, false);
    assert_eq!(refresh.exp, u64::MAX);
    assert_eq!(refresh.nbf, u64::MAX - 86400 + 3599);
}

#[test]
fn token_has_three_parts_and_is_not_the_claims() {
    let config = get_jwt_config();
    let token = generate_access_token(2, 1_700_000_000, &config, false).unwrap();
    assert_eq!(token.split('.').count(), 3);
    assert!(token.split('.').all(|part| !part.is_empty()));
    assert_ne!(token, "2");
}

#[test]
fn signing_is_a_function_of_claims_and_secret() {
    let config = get_jwt_config();
    let first = generate_access_token(2, 1_700_000_000, &config, false).unwrap();
    let second = generate_access_token(2, 1_700_000_000, &config, false).unwrap();
    assert_eq!(first, second);
    let other_user = generate_access_token(3, 1_700_000_000, &config, false).unwrap();
    assert_ne!(first, other_user);
    let mut other_config = get_jwt_config();
    other_config.secret = "another secret".to_owned();
    let other_secret = generate_access_token(2, 1_700_000_000, &other_config, false).unwrap();
    assert_ne!(first, other_secret);
}

#[test]
fn token_interoperates_with_the_wire_format() {
    let config = get_jwt_config();
    let issued = now();
    let token = generate_access_token(2, issued, &config, true).unwrap();
    let mut policy = jsonwebtoken::Validation::new(jsonwebtoken::Algorithm::HS256);
    policy.set_issuer(&["LEK-backend"]);
    let decoded = jsonwebtoken::decode::<serde_json::Value>(
        &token,
        &jsonwebtoken::DecodingKey::from_secret("secret".as_bytes()),
        &policy,
    )
    .unwrap();
    assert_eq!(decoded.header.alg, jsonwebtoken::Algorithm::HS256);
    let payload = decoded.claims;
    assert_eq!(payload.as_object().unwrap().len(), 7);
    assert_eq!(payload["exp"].as_u64(), Some(issued + 3600));
    assert_eq!(payload["iat"].as_u64(), Some(issued));
    assert_eq!(payload["nbf"].as_u64(), Some(issued));
    assert_eq!(payload["iss"].as_str(), Some("LEK-backend"));
    assert_eq!(payload["sub"].as_str(), Some("2"));
    assert_eq!(payload["token_type"].as_str(), Some("access"));
    assert_eq!(payload["admin"].as_bool(), Some(true));
}

#[test]
fn validated_access_token_returns_the_issued_claims() {
    let config = get_jwt_config();
    let issued = now();
    for (user_id, admin) in [(1, false), (2, true), (2147483647, true), (-8, false)] {
        let token = generate_access_token(user_id, issued, &config, admin).unwrap();
        let claims = validate_token(&token, &config, TokenType::Access).unwrap();
        assert_eq!(claims, Claims::access(user_id, issued, admin));
        assert_eq!(claims.sub, user_id.to_string());
        assert_eq!(claims.admin, admin);
    }
}

#[test]
fn refresh_token_where_access_is_expected_is_a_kind_mismatch() {
    let mut config = get_jwt_config();
    config.validate_nbf = false;
    let token = generate_refresh_token(2, now(), &config, false).unwrap();
    assert_eq!(
        validate_token(&token, &config, TokenType::Access),
        Err(BackendError::WrongCredentials)
    );
}

#[test]
fn access_token_where_refresh_is_expected_is_a_kind_mismatch() {
    let config = get_jwt_config();
    let token = generate_access_token(2, now(), &config, false).unwrap();
    assert_eq!(
        validate_token(&token, &config, TokenType::Refresh),
        Err(BackendError::WrongCredentials)
    );
}

#[test]
fn fresh_refresh_token_is_immature_while_not_before_is_enforced() {
    let config = get_jwt_config();
    let token = generate_refresh_token(2, now(), &config, false).unwrap();
    let result = validate_token(&token, &config, TokenType::Refresh);
    assert_eq!(engine_error(result), refusal(TokenErrorKind::ImmatureSignature, "ImmatureSignature"));
}

#[test]
fn refresh_token_is_usable_once_the_access_token_has_run_out() {
    let config = get_jwt_config();
    let issued = now() - 3600;
    let token = generate_refresh_token(2, issued, &config, true).unwrap();
    let claims = validate_token(&token, &config, TokenType::Refresh).unwrap();
    assert_eq!(claims, Claims::refresh(2, issued, true));
}

#[test]
fn expired_token_fails_though_its_signature_is_valid() {
    let config = get_jwt_config();
    let token = generate_access_token(2, now() - 7200, &config, false).unwrap();
    let result = validate_token(&token, &config, TokenType::Access);
    assert_eq!(engine_error(result), refusal(TokenErrorKind::ExpiredSignature, "ExpiredSignature"));
}

#[test]
fn expired_token_fails_under_a_wrong_signature_too() {
    let mut signer = get_jwt_config();
    signer.secret = "not the secret".to_owned();
    let token = generate_access_token(2, now() - 7200, &signer, false).unwrap();
    let result = validate_token(&token, &get_jwt_config(), TokenType::Access);
    assert!(matches!(result, Err(BackendError::TokenError(_))));
}

#[test]
fn token_signed_with_another_secret_is_refused() {
    let mut signer = get_jwt_config();
    signer.secret = "not the secret".to_owned();
    let token = generate_access_token(2, now(), &signer, false).unwrap();
    let result = validate_token(&token, &get_jwt_config(), TokenType::Access);
    assert_eq!(engine_error(result), refusal(TokenErrorKind::InvalidSignature, "InvalidSignature"));
}

#[test]
fn garbage_is_an_invalid_token() {
    let config = get_jwt_config();
    assert_eq!(engine_error(validate_token("garbage", &config, TokenType::Access)), refusal(TokenErrorKind::InvalidToken, "InvalidToken"));
    assert_eq!(engine_error(validate_token("", &config, TokenType::Access)), refusal(TokenErrorKind::InvalidToken, "InvalidToken"));
    assert!(matches!(
        validate_token("a.b.c", &config, TokenType::Access),
        Err(BackendError::TokenError(TokenFailure::Engine(TokenErrorKind::Base64, _)))
    ));
}

#[test]
fn token_with_a_payload_that_is_no_json_is_refused() {
    let config = get_jwt_config();
    let token = generate_access_token(2, now(), &config, false).unwrap();
    let parts: Vec<&str> = token.split('.').collect();
    let forged = format!("{}.{}.{}", parts[0], "bm90IGpzb24", parts[2]);
    let (kind, _) = engine_error(validate_token(&forged, &config, TokenType::Access));
    assert_eq!(kind, TokenErrorKind::InvalidSignature);
    let header_only = format!("{}.{}.{}", "bm90IGpzb24", parts[1], parts[2]);
    let (kind, text) = engine_error(validate_token(&header_only, &config, TokenType::Access));
    assert_eq!(kind, TokenErrorKind::Json);
    assert!(text.starts_with("JSON error: "));
}

#[test]
fn token_under_another_algorithm_is_refused() {
    let config = get_jwt_config();
    let token = jsonwebtoken::encode(
        &jsonwebtoken::Header::new(jsonwebtoken::Algorithm::HS512),
        &serde_json::Map::new(),
        &jsonwebtoken::EncodingKey::from_secret("secret".as_bytes()),
    )
    .unwrap();
    assert_eq!(
        engine_error(validate_token(&token, &config, TokenType::Access)),
        refusal(TokenErrorKind::InvalidAlgorithm, "InvalidAlgorithm")
    );
}

#[test]
fn token_of_another_issuer_is_refused() {
    let config = get_jwt_config();
    let mut claims = Claims::access(2, now(), false);
    claims.iss = "someone else".to_owned();
    let token = sign(&claims, &config).unwrap();
    let result = validate_token(&token, &config, TokenType::Access);
    assert_eq!(engine_error(result), refusal(TokenErrorKind::InvalidIssuer, "InvalidIssuer"));
}

#[test]
fn configured_issuer_is_the_one_expected() {
    let config = JWTConfig {
        secret: "s3".to_owned(),
        issuer: "someone else".to_owned(),
        validate_nbf: false,
        required_claims: vec!["exp".to_owned()],
    };
    let mut claims = Claims::access(2, now(), false);
    claims.iss = "someone else".to_owned();
    let token = sign(&claims, &config).unwrap();
    assert_eq!(validate_token(&token, &config, TokenType::Access), Ok(claims));
    let ours = sign(&Claims::access(2, now(), false), &config).unwrap();
    assert_eq!(engine_error(validate_token(&ours, &config, TokenType::Access)), refusal(TokenErrorKind::InvalidIssuer, "InvalidIssuer"));
}

#[test]
fn token_of_an_unknown_kind_is_refused_for_both_kinds() {
    let config = get_jwt_config();
    let mut claims = Claims::access(2, now(), false);
    claims.token_type = "Access".to_owned();
    let token = sign(&claims, &config).unwrap();
    assert_eq!(
        validate_token(&token, &config, TokenType::Access),
        Err(BackendError::WrongCredentials)
    );
    assert_eq!(
        validate_token(&token, &config, TokenType::Refresh),
        Err(BackendError::WrongCredentials)
    );
}

fn decoded(claims: &Claims) -> DecodedClaims {
    DecodedClaims {
        exp: Some(claims.exp),
        iat: Some(claims.iat),
        iss: Some(claims.iss.clone()),
        nbf: Some(claims.nbf),
        sub: Some(claims.sub.clone()),
        token_type: Some(claims.token_type.clone()),
        admin: Some(claims.admin),
    }
}

#[test]
fn complete_claims_of_the_expected_kind_are_accepted() {
    let claims = Claims::access(5, 100, true);
    assert_eq!(check_claims(decoded(&claims), TokenType::Access), Ok(claims.clone()));
    assert_eq!(Claims::from_decoded(decoded(&claims)), Ok(claims));
}

#[test]
fn complete_claims_of_the_other_kind_are_wrong_credentials() {
    let claims = Claims::access(5, 100, true);
    assert_eq!(
        check_claims(decoded(&claims), TokenType::Refresh),
        Err(BackendError::WrongCredentials)
    );
}

#[test]
fn each_missing_claim_is_named() {
    let claims = Claims::refresh(5, 100, false);
    let missing = |name: &str| {
        Err(BackendError::TokenError(TokenFailure::MissingClaim(name.to_owned())))
    };
    let mut partial = decoded(&claims);
    partial.admin = None;
    assert_eq!(check_claims(partial.clone(), TokenType::Refresh), missing("admin"));
    partial.token_type = None;
    assert_eq!(check_claims(partial.clone(), TokenType::Refresh), missing("token_type"));
    partial.sub = None;
    assert_eq!(check_claims(partial.clone(), TokenType::Refresh), missing("sub"));
    partial.nbf = None;
    assert_eq!(check_claims(partial.clone(), TokenType::Refresh), missing("nbf"));
    partial.iss = None;
    assert_eq!(check_claims(partial.clone(), TokenType::Refresh), missing("iss"));
    partial.iat = None;
    assert_eq!(check_claims(partial.clone(), TokenType::Refresh), missing("iat"));
    partial.exp = None;
    assert_eq!(check_claims(partial.clone(), TokenType::Refresh), missing("exp"));
    assert_eq!(
        Claims::from_decoded(partial),
        Err(TokenFailure::MissingClaim("exp".to_owned()))
    );
}

#[test]
fn token_without_a_claim_of_the_payload_is_refused() {
    let config = get_jwt_config();
    let issued = now();
    let mut payload = serde_json::Map::new();
    payload.insert("exp".to_owned(), (issued + 3600).into());
    payload.insert("iat".to_owned(), issued.into());
    payload.insert("iss".to_owned(), "LEK-backend".into());
    payload.insert("nbf".to_owned(), issued.into());
    payload.insert("sub".to_owned(), "2".into());
    payload.insert("token_type".to_owned(), "access".into());
    let token = jsonwebtoken::encode(
        &jsonwebtoken::Header::default(),
        &payload,
        &jsonwebtoken::EncodingKey::from_secret("secret".as_bytes()),
    )
    .unwrap();
    assert_eq!(
        validate_token(&token, &config, TokenType::Access),
        Err(BackendError::TokenError(TokenFailure::MissingClaim("admin".to_owned())))
    );
    payload.insert("admin".to_owned(), "yes".into());
    let token = jsonwebtoken::encode(
        &jsonwebtoken::Header::default(),
        &payload,
        &jsonwebtoken::EncodingKey::from_secret("secret".as_bytes()),
    )
    .unwrap();
    assert_eq!(
        validate_token(&token, &config, TokenType::Access),
        Err(BackendError::TokenError(TokenFailure::MissingClaim("admin".to_owned())))
    );
    payload.remove("sub");
    let token = jsonwebtoken::encode(
        &jsonwebtoken::Header::default(),
        &payload,
        &jsonwebtoken::EncodingKey::from_secret("secret".as_bytes()),
    )
    .unwrap();
    assert_eq!(
        engine_error(validate_token(&token, &config, TokenType::Access)),
        refusal(
            TokenErrorKind::MissingRequiredClaim("sub".to_owned()),
            "Missing required claim: sub"
        )
    );
}
