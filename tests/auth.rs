use labmedical::auth::{accept_token_payload, check_password, PasswordVerdict, TOKEN_TTL_SECONDS};
use labmedical::models::{Admin, AdminInfo, LoginRequest};
use labmedical::{
    authorize, check_credentials, generate_jwt, hash_password, issue_token, login_response,
    verify_jwt, verify_password, verify_token, ApiError,
};

const NOW: i64 = 1_700_000_000;

#[test]
fn hashed_password_verifies() {
    let digest = hash_password("correcto-123").unwrap();
    assert!(digest.starts_with("$argon2id$"));
    assert_eq!(verify_password("correcto-123", &digest), Ok(true));
    assert_eq!(verify_password("incorrecto-123", &digest), Ok(false));
}

#[test]
fn hashing_twice_gives_fresh_salts() {
    let a = hash_password("misma").unwrap();
    let b = hash_password("misma").unwrap();
    assert_ne!(a, b);
    assert_eq!(verify_password("misma", &a), Ok(true));
    assert_eq!(verify_password("misma", &b), Ok(true));
}

#[test]
fn malformed_digest_is_a_failed_verification() {
    assert_eq!(verify_password("x", "no-es-un-hash"), Ok(false));
    assert_eq!(verify_password("x", ""), Ok(false));
    assert!(matches!(check_password("x", "no-es-un-hash"), PasswordVerdict::CorruptDigest(_)));
    let digest = hash_password("clave-123").unwrap();
    assert_eq!(check_password("clave-123", &digest), PasswordVerdict::Matches);
    assert_eq!(check_password("otra-clave", &digest), PasswordVerdict::Mismatch);
}

#[test]
fn digest_is_argon2id_phc_string() {
    let digest = hash_password("clave-123").unwrap();
    assert!(digest.starts_with("$argon2id$v=19$m=19456,t=2,p=1$"));
    assert_ne!(digest, "clave-123");
}

#[test]
fn issuing_is_deterministic_for_the_same_clock() {
    let a = issue_token("admin@example.com", "secreto", NOW, 3600).unwrap();
    let b = issue_token("admin@example.com", "secreto", NOW, 3600).unwrap();
    assert_eq!(a, b);
    let c = issue_token("admin@example.com", "secreto", NOW + 1, 3600).unwrap();
    assert_ne!(a, c);
}

#[test]
fn login_response_needs_clock_in_range() {
    let info = AdminInfo { id: 1, email: "a@example.com".to_string(), name: None };
    assert!(matches!(login_response(info.clone(), "s", -1), Err(ApiError::Internal(_))));
    assert!(matches!(login_response(info.clone(), "s", i64::MAX - TOKEN_TTL_SECONDS + 1), Err(ApiError::Internal(_))));
    let r = login_response(info, "s", 0).unwrap();
    assert_eq!(verify_token(&r.token, "s", 10).unwrap().exp, TOKEN_TTL_SECONDS);
}

#[test]
fn issued_token_round_trips() {
    let token = issue_token("admin@example.com", "secreto", NOW, 3600).unwrap();
    let claims = verify_token(&token, "secreto", NOW + 10).unwrap();
    assert_eq!(claims.sub, "admin@example.com");
    assert_eq!(claims.iat, NOW);
    assert_eq!(claims.exp, NOW + 3600);
    assert!(verify_token(&token, "secreto", NOW + 3599).is_ok());
}

#[test]
fn expired_token_is_rejected() {
    let token = issue_token("admin@example.com", "secreto", NOW, 3600).unwrap();
    let e = verify_token(&token, "secreto", NOW + 3600).unwrap_err();
    assert!(matches!(e, ApiError::Auth(_)));
}

#[test]
fn wrong_secret_and_tampering_look_like_expiry() {
    let token = issue_token("admin@example.com", "secreto", NOW, 3600).unwrap();
    let expired = verify_token(&token, "secreto", NOW + 7200).unwrap_err().to_response();
    let wrong = verify_token(&token, "otro", NOW).unwrap_err().to_response();
    let mut chars: Vec<char> = token.chars().collect();
    let last = chars.len() - 2;
    chars[last] = if chars[last] == 'A' { 'B' } else { 'A' };
    let tampered: String = chars.into_iter().collect();
    let flipped = verify_token(&tampered, "secreto", NOW).unwrap_err().to_response();
    let garbage = verify_token("no.es.token", "secreto", NOW).unwrap_err().to_response();
    assert_eq!(expired.status, 401);
    assert_eq!(wrong, expired);
    assert_eq!(flipped, expired);
    assert_eq!(garbage, expired);
}

#[test]
fn payload_without_claims_is_rejected() {
    let e = accept_token_payload(Ok((None, Some(NOW + 10), Some(NOW))), NOW).unwrap_err();
    assert!(matches!(e, ApiError::Auth(_)));
    let e = accept_token_payload(Ok((Some("a".to_string()), Some(NOW), Some(NOW))), NOW - 5).unwrap_err();
    assert!(matches!(e, ApiError::Auth(_)));
    let c = accept_token_payload(Ok((Some("a".to_string()), Some(NOW + 1), Some(NOW))), NOW).unwrap();
    assert_eq!(c.sub, "a");
}

#[test]
fn generated_jwt_verifies_now() {
    let token = generate_jwt("admin@example.com", "secreto").unwrap();
    let claims = verify_jwt(&token, "secreto").unwrap();
    assert_eq!(claims.sub, "admin@example.com");
    assert_eq!(claims.exp - claims.iat, TOKEN_TTL_SECONDS);
    assert!(verify_jwt(&token, "otro").is_err());
}

#[test]
fn authorize_reads_bearer_header() {
    let token = issue_token("admin@example.com", "secreto", NOW, 3600).unwrap();
    let header = format!("Bearer {}", token);
    let claims = authorize(Some(&header), "secreto", NOW + 1).unwrap();
    assert_eq!(claims.sub, "admin@example.com");
    assert_eq!(authorize(None, "secreto", NOW), Err(ApiError::Unauthorized));
    assert_eq!(authorize(Some(&token), "secreto", NOW), Err(ApiError::Unauthorized));
    assert_eq!(authorize(Some("Basic abc"), "secreto", NOW), Err(ApiError::Unauthorized));
    assert!(matches!(authorize(Some("Bearer x"), "secreto", NOW), Err(ApiError::Auth(_))));
}

fn admin(digest: &str) -> Admin {
    Admin {
        id: 7,
        email: "admin@example.com".to_string(),
        password_hash: digest.to_string(),
        name: Some("Admin".to_string()),
        created_at: NOW,
        last_login: None,
    }
}

#[test]
fn login_with_correct_credentials_names_the_email() {
    let digest = hash_password("secreto-1").unwrap();
    let a = admin(&digest);
    let req = LoginRequest { email: "admin@example.com".to_string(), password: "secreto-1".to_string() };
    let info = check_credentials(&req, Some(&a)).unwrap();
    assert_eq!(info, AdminInfo { id: 7, email: "admin@example.com".to_string(), name: Some("Admin".to_string()) });
    let resp = login_response(info.clone(), "jwt-secret", NOW).unwrap();
    assert_eq!(resp.admin, info);
    let claims = verify_token(&resp.token, "jwt-secret", NOW + 60).unwrap();
    assert_eq!(claims.sub, req.email);
}

#[test]
fn login_failures_are_uniform() {
    let digest = hash_password("secreto-1").unwrap();
    let a = admin(&digest);
    let wrong = LoginRequest { email: "admin@example.com".to_string(), password: "otro-secreto".to_string() };
    let missing = LoginRequest { email: "nadie@example.com".to_string(), password: "secreto-1".to_string() };
    let r1 = check_credentials(&wrong, Some(&a)).unwrap_err();
    let r2 = check_credentials(&missing, None).unwrap_err();
    let r3 = check_credentials(&missing, Some(&a)).unwrap_err();
    assert!(matches!(r1, ApiError::Auth(_)));
    assert_eq!(r1.to_response(), r2.to_response());
    assert_eq!(r1.to_response(), r3.to_response());
    let corrupted = admin("corrupto");
    let ok = LoginRequest { email: "admin@example.com".to_string(), password: "secreto-1".to_string() };
    let r4 = check_credentials(&ok, Some(&corrupted)).unwrap_err();
    assert!(matches!(r4, ApiError::Auth(_)));
    assert_eq!(r4.to_response(), r1.to_response());
    let bad = LoginRequest { email: "x".to_string(), password: "1".to_string() };
    assert!(matches!(check_credentials(&bad, Some(&a)), Err(ApiError::Validation(_))));
}
