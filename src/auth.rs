use vstd::prelude::*;
use vstd::string::*;
use argon2::password_hash::rand_core::OsRng;
use argon2::password_hash::SaltString;
use argon2::{Argon2, PasswordHash, PasswordHasher, PasswordVerifier};
use crate::error::{ApiError, ApiResult};
use crate::models::{Admin, AdminInfo, LoginRequest, LoginResponse};
use crate::validation::{login_rules, render_violations, validate_login};

verus! {

/// How long a session token stays valid after it is issued, in seconds.
pub const TOKEN_TTL_SECONDS: i64 = 7200;

/// The decoded payload of a verified session token.
#[derive(Debug, Clone, PartialEq, Eq)]
pub struct Claims {
    /// The subject: the administrator's email.
    pub sub: String,
    /// Expiry, in seconds since the epoch.
    pub exp: i64,
    /// Issue time, in seconds since the epoch.
    pub iat: i64,
}

/// What a token carries once its signature has been checked: the `sub`,
/// `exp` and `iat` claims, each absent when the payload lacks it or holds a
/// value of another type.
pub type PayloadView = (Option<Seq<char>>, Option<i64>, Option<i64>);

/// The digest parses as a PHC string.
pub uninterp spec fn digest_is_well_formed(digest: Seq<char>) -> bool;

/// Re-deriving with the parameters and salt that the digest embeds gives the
/// digest's hash.
pub uninterp spec fn password_matches_digest(password: Seq<char>, digest: Seq<char>) -> bool;

/// The claims of `token` when the decoder accepts it under `secret` (its
/// structure, its HS256 signature, an unsigned `exp`), and `None` when it
/// does not.
pub uninterp spec fn token_payload(token: Seq<char>, secret: Seq<char>) -> Option<PayloadView>;

/// The token that HS256 signing of the claims `sub`, `exp` and `iat` under
/// `secret` gives.
pub uninterp spec fn signed_token(sub: Seq<char>, exp: i64, iat: i64, secret: Seq<char>) -> Seq<char>;

/// How every digest made here starts: the PHC string of Argon2id, version
/// 19, with the default cost (19 MiB, two passes, one lane).
pub open spec fn argon2id_digest_prefix() -> Seq<char> {
    "$argon2id$v=19$m=19456,t=2,p=1$"@
}

/// Relies on argon2's `PasswordHasher::hash_password` (Argon2id, default
/// parameters) with a fresh salt from `SaltString::generate(OsRng)`: the PHC
/// string it returns (`$argon2id$v=19$m=19456,t=2,p=1$<salt>$<hash>`) parses,
/// and verifying the same password against it succeeds.
#[verifier::external_body]
fn argon2_hash(password: &str) -> (r: Result<String, String>)
    ensures
        r is Ok ==> argon2id_digest_prefix().is_prefix_of(r->Ok_0@),
        r is Ok ==> digest_is_well_formed(r->Ok_0@),
        r is Ok ==> password_matches_digest(password@, r->Ok_0@),
{
    let salt = SaltString::generate(&mut OsRng);
    Argon2::default()
        .hash_password(password.as_bytes(), &salt)
        .map(|h| h.to_string())
        .map_err(|e| e.to_string())
}

/// Relies on `PasswordHash::new` to parse the digest and on argon2's
/// `PasswordVerifier::verify_password` to re-derive and compare.
#[verifier::external_body]
fn argon2_verify(password: &str, digest: &str) -> (r: Result<bool, String>)
    ensures
        r is Ok == digest_is_well_formed(digest@),
        r is Ok ==> r->Ok_0 == password_matches_digest(password@, digest@),
{
    PasswordHash::new(digest)
        .map(|h| Argon2::default().verify_password(password.as_bytes(), &h).is_ok())
        .map_err(|e| e.to_string())
}

/// Relies on `jsonwebtoken::encode` with the default header (HS256) over a
/// JSON object of the claims `sub`, `exp` and `iat`. It fails only on a key
/// of another family than the header's algorithm or on a claims value that
/// does not serialize, neither of which can happen here; HMAC signing adds no
/// randomness. Decoding the token with the same secret gives the claims back
/// (the decoder asks for an `exp` that reads as an unsigned number).
#[verifier::external_body]
fn jwt_encode(sub: &str, exp: i64, iat: i64, secret: &str) -> (r: Result<String, String>)
    ensures
        r is Ok,
        r is Ok ==> r->Ok_0@ == signed_token(sub@, exp, iat, secret@),
        r is Ok && exp >= 0 ==> token_payload(r->Ok_0@, secret@) == Some(
            (Some(sub@), Some(exp), Some(iat)),
        ),
{
    let mut claims = serde_json::Map::new();
    claims.insert("sub".to_string(), serde_json::Value::from(sub));
    claims.insert("exp".to_string(), serde_json::Value::from(exp));
    claims.insert("iat".to_string(), serde_json::Value::from(iat));
    let key = jsonwebtoken::EncodingKey::from_secret(secret.as_bytes());
    jsonwebtoken::encode(&jsonwebtoken::Header::default(), &claims, &key).map_err(|e| e.to_string())
}

/// Relies on `jsonwebtoken::decode` with the default validation (HS256)
/// but without its own expiry check, which reads the system clock: expiry is
/// decided by the caller against the time it is given.
#[verifier::external_body]
fn jwt_decode(token: &str, secret: &str) -> (r: Result<(Option<String>, Option<i64>, Option<i64>), String>)
    ensures
        token_payload(token@, secret@) == decoded_view(r),
{
    let mut validation = jsonwebtoken::Validation::default();
    validation.validate_exp = false;
    let key = jsonwebtoken::DecodingKey::from_secret(secret.as_bytes());
    jsonwebtoken::decode::<serde_json::Value>(token, &key, &validation)
        .map(|d| (d.claims["sub"].as_str().map(|s| s.to_string()), d.claims["exp"].as_i64(), d.claims["iat"].as_i64()))
        .map_err(|e| e.to_string())
}

/// Relies on `chrono::Utc::now().timestamp()`: the wall clock, in seconds
/// since the epoch. Nothing is known of the value.
#[verifier::external_body]
fn current_timestamp() -> (r: i64) {
    chrono::Utc::now().timestamp()
}

/// `digest` is what hashing `password` produced.
pub open spec fn is_digest_of(password: Seq<char>, digest: Seq<char>) -> bool {
    digest_is_well_formed(digest) && password_matches_digest(password, digest)
}

/// The outcome of checking `password` against a stored digest: `None` for a
/// digest that does not parse (a corrupted record), else whether it matches.
pub open spec fn password_check(password: Seq<char>, digest: Seq<char>) -> Option<bool> {
    if digest_is_well_formed(digest) {
        Some(password_matches_digest(password, digest))
    } else {
        None
    }
}

/// Hashes a password with Argon2id and a fresh random salt. The digest is
/// self-describing: it embeds the algorithm, its cost and the salt.
pub fn hash_password(password: &str) -> (r: ApiResult<String>)
    ensures
        r is Ok ==> is_digest_of(password@, r->Ok_0@),
        r is Ok ==> argon2id_digest_prefix().is_prefix_of(r->Ok_0@),
        r is Err ==> r->Err_0 is Internal,
{
    match argon2_hash(password) {
        Ok(digest) => Ok(digest),
        Err(e) => Err(ApiError::Internal(String::from_str("Error al hashear contrasena: ").concat(e.as_str()))),
    }
}

/// The three ways a password check can end.
#[derive(Debug, Clone, PartialEq, Eq)]
pub enum PasswordVerdict {
    Matches,
    Mismatch,
    /// The stored digest does not parse: a corrupted credential, with the
    /// parser's detail for the operator-facing log.
    CorruptDigest(String),
}

/// Checks a password against a stored digest, telling a corrupted digest
/// apart from a wrong password.
pub fn check_password(password: &str, hash: &str) -> (r: PasswordVerdict)
    ensures
        match password_check(password@, hash@) {
            Some(true) => r is Matches,
            Some(false) => r is Mismatch,
            None => r is CorruptDigest,
        },
{
    match argon2_verify(password, hash) {
        Ok(true) => PasswordVerdict::Matches,
        Ok(false) => PasswordVerdict::Mismatch,
        Err(e) => PasswordVerdict::CorruptDigest(String::from_str("Hash invalido: ").concat(e.as_str())),
    }
}

/// Checks a password against a stored digest. A digest that does not parse
/// is a verification failure (`false`), never an error; `check_password`
/// tells it apart for the log.
pub fn verify_password(password: &str, hash: &str) -> (r: ApiResult<bool>)
    ensures
        r == Ok::<bool, ApiError>(password_check(password@, hash@) == Some(true)),
{
    match check_password(password, hash) {
        PasswordVerdict::Matches => Ok(true),
        _ => Ok(false),
    }
}

/// Hashing and then verifying the same password succeeds.
pub proof fn lemma_hash_then_verify(password: Seq<char>, digest: Seq<char>)
    requires
        is_digest_of(password, digest),
    ensures
        password_check(password, digest) == Some(true),
{
}

/// The claims that a token issued at `now` for `ttl` seconds carries.
pub open spec fn issued_payload(subject: Seq<char>, now: i64, ttl: i64) -> PayloadView {
    (Some(subject), Some((now + ttl) as i64), Some(now))
}

/// The payload that a decoding outcome stands for.
pub open spec fn decoded_view(
    decoded: Result<(Option<String>, Option<i64>, Option<i64>), String>,
) -> Option<PayloadView> {
    match decoded {
        Ok(p) => Some(p.deep_view()),
        Err(_) => None,
    }
}

/// The claims that a checked payload yields at time `now`: all three present,
/// issued before expiry, and not yet expired. `None` means the token is
/// invalid or expired, with no difference made between the two.
pub open spec fn accepted_claims(payload: Option<PayloadView>, now: i64) -> Option<(Seq<char>, i64, i64)> {
    match payload {
        Some((Some(sub), Some(exp), Some(iat))) => if iat < exp && now < exp {
            Some((sub, exp, iat))
        } else {
            None
        },
        _ => None,
    }
}

/// Decides a decoded token payload at time `now`. Every rejection is the
/// same `Auth` kind; only its internal detail names the cause.
pub fn accept_token_payload(
    payload: Result<(Option<String>, Option<i64>, Option<i64>), String>,
    now: i64,
) -> (r: ApiResult<Claims>)
    ensures
        match accepted_claims(decoded_view(payload), now) {
            Some((sub, exp, iat)) => r is Ok && r->Ok_0.sub@ == sub && r->Ok_0.exp == exp
                && r->Ok_0.iat == iat,
            None => r is Err && r->Err_0 is Auth,
        },
{
    match payload {
        Err(e) => Err(ApiError::Auth(e)),
        Ok((Some(sub), Some(exp), Some(iat))) => {
            if iat < exp && now < exp {
                Ok(Claims { sub, exp, iat })
            } else {
                Err(ApiError::Auth(String::from_str("token expirado")))
            }
        },
        Ok(_) => Err(ApiError::Auth(String::from_str("faltan claims en el token"))),
    }
}

/// Every way a token can fail, whether expired, signed with another secret,
/// altered or malformed, is an `Auth` failure, and all of them look the same
/// to the caller.
pub proof fn lemma_token_failures_look_alike(a: ApiError, b: ApiError)
    requires
        a is Auth,
        b is Auth,
    ensures
        a.spec_status() == b.spec_status(),
        a.spec_code() == b.spec_code(),
        a.spec_message() == b.spec_message(),
{
    crate::error::lemma_detail_never_shown(a, b);
}

/// Issues a signed token for `subject`, valid from `now` for `ttl` seconds.
pub fn issue_token(subject: &str, secret: &str, now: i64, ttl: i64) -> (r: ApiResult<String>)
    requires
        0 < ttl,
        now + ttl <= i64::MAX,
    ensures
        r is Ok,
        r is Ok ==> r->Ok_0@ == signed_token(subject@, (now + ttl) as i64, now, secret@),
        r is Ok && now + ttl >= 0 ==> token_payload(r->Ok_0@, secret@) == Some(
            issued_payload(subject@, now, ttl),
        ),
{
    match jwt_encode(subject, now + ttl, now, secret) {
        Ok(token) => Ok(token),
        Err(e) => Err(ApiError::Internal(String::from_str("Error al generar jwt: ").concat(e.as_str()))),
    }
}

/// Verifies a token's signature against `secret` and its expiry against
/// `now`.
pub fn verify_token(token: &str, secret: &str, now: i64) -> (r: ApiResult<Claims>)
    ensures
        match accepted_claims(token_payload(token@, secret@), now) {
            Some((sub, exp, iat)) => r is Ok && r->Ok_0.sub@ == sub && r->Ok_0.exp == exp
                && r->Ok_0.iat == iat,
            None => r is Err && r->Err_0 is Auth,
        },
{
    accept_token_payload(jwt_decode(token, secret), now)
}

/// A token issued for `ttl` seconds verifies, with its subject unchanged and
/// its validity window `[now, now + ttl)`, at every time before expiry, and
/// fails as invalid at and after expiry.
pub proof fn lemma_issued_token_verifies(
    subject: Seq<char>,
    secret: Seq<char>,
    token: Seq<char>,
    now: i64,
    ttl: i64,
    at: i64,
)
    requires
        0 < ttl,
        0 <= now + ttl <= i64::MAX,
        token_payload(token, secret) == Some(issued_payload(subject, now, ttl)),
    ensures
        at < now + ttl ==> accepted_claims(token_payload(token, secret), at) == Some(
            (subject, (now + ttl) as i64, now),
        ),
        at >= now + ttl ==> accepted_claims(token_payload(token, secret), at) is None,
{
}

/// Issues a session token for `email`, valid for two hours from the current
/// time.
pub fn generate_jwt(email: &str, secret: &str) -> (r: ApiResult<String>)
    ensures
        r is Ok ==> exists|now: i64|
            0 <= now <= i64::MAX - TOKEN_TTL_SECONDS && r->Ok_0@ == signed_token(
                email@,
                (now + TOKEN_TTL_SECONDS) as i64,
                now,
                secret@,
            ) && token_payload(r->Ok_0@, secret@) == Some(
                #[trigger] issued_payload(email@, now, TOKEN_TTL_SECONDS),
            ),
        r is Err ==> r->Err_0 is Internal,
{
    let now = current_timestamp();
    if now < 0 || now > i64::MAX - TOKEN_TTL_SECONDS {
        return Err(ApiError::Internal(String::from_str("reloj fuera de rango")));
    }
    issue_token(email, secret, now, TOKEN_TTL_SECONDS)
}

/// Verifies a session token against `secret` at the current time.
pub fn verify_jwt(token: &str, secret: &str) -> (r: ApiResult<Claims>)
    ensures
        r is Ok ==> token_payload(token@, secret@) == Some(
            (Some(r->Ok_0.sub@), Some(r->Ok_0.exp), Some(r->Ok_0.iat)),
        ),
        r is Ok ==> r->Ok_0.iat < r->Ok_0.exp,
        r is Err ==> r->Err_0 is Auth,
{
    let now = current_timestamp();
    verify_token(token, secret, now)
}

/// A login attempt that passed the request's rules succeeds when a record
/// was found under the submitted email and the password matches its digest.
pub open spec fn credentials_accepted(req: LoginRequest, found: Option<&Admin>) -> bool {
    match found {
        None => false,
        Some(a) => a.email@ == req.email@ && password_check(req.password@, a.password_hash@)
            == Some(true),
    }
}

/// Checks a login attempt: the request's rules, then the record found under
/// the submitted email (`None` when there is none), then the password. No
/// such record, a record under another email, a wrong password and a stored
/// digest that does not parse are one and the same `Auth` failure to the
/// caller; only the internal detail tells them apart.
pub fn check_credentials(req: &LoginRequest, found: Option<&Admin>) -> (r: ApiResult<AdminInfo>)
    ensures
        login_rules(*req).len() > 0 ==> r is Err && r->Err_0 is Validation
            && r->Err_0->Validation_0@ == render_violations(login_rules(*req)),
        login_rules(*req).len() == 0 ==> (r is Ok <==> credentials_accepted(*req, found)),
        login_rules(*req).len() == 0 && !credentials_accepted(*req, found) ==> r is Err
            && r->Err_0 is Auth,
        r is Ok ==> found is Some && r->Ok_0.id == found->0.id && r->Ok_0.email@ == req.email@
            && r->Ok_0.email@ == found->0.email@ && r->Ok_0.name == found->0.name,
{
    match validate_login(req) {
        Err(e) => {
            return Err(e);
        },
        Ok(()) => {},
    }
    let admin = match found {
        None => {
            return Err(ApiError::Auth(String::from_str("email inexistente")));
        },
        Some(a) => a,
    };
    if admin.email != req.email {
        return Err(ApiError::Auth(String::from_str("email inexistente")));
    }
    match check_password(req.password.as_str(), admin.password_hash.as_str()) {
        PasswordVerdict::CorruptDigest(e) => {
            return Err(ApiError::Auth(String::from_str("hash almacenado corrupto: ").concat(e.as_str())));
        },
        PasswordVerdict::Mismatch => {
            return Err(ApiError::Auth(String::from_str("contrasena incorrecta")));
        },
        PasswordVerdict::Matches => {},
    }
    Ok(AdminInfo { id: admin.id, email: admin.email.clone(), name: admin.name.clone() })
}

/// The response to a successful login: a token for the administrator's email,
/// issued at `now` for two hours, and the administrator's public details.
pub fn login_response(admin: AdminInfo, secret: &str, now: i64) -> (r: ApiResult<LoginResponse>)
    ensures
        r is Ok <==> 0 <= now <= i64::MAX - TOKEN_TTL_SECONDS,
        r is Ok ==> r->Ok_0.admin == admin,
        r is Ok ==> r->Ok_0.token@ == signed_token(
            admin.email@,
            (now + TOKEN_TTL_SECONDS) as i64,
            now,
            secret@,
        ),
        r is Ok ==> token_payload(r->Ok_0.token@, secret@) == Some(
            issued_payload(admin.email@, now, TOKEN_TTL_SECONDS),
        ),
        r is Err ==> r->Err_0 is Internal,
{
    if now < 0 || now > i64::MAX - TOKEN_TTL_SECONDS {
        return Err(ApiError::Internal(String::from_str("reloj fuera de rango")));
    }
    match issue_token(admin.email.as_str(), secret, now, TOKEN_TTL_SECONDS) {
        Ok(token) => Ok(LoginResponse { token, admin }),
        Err(e) => Err(e),
    }
}

/// The token handed out on login names the submitted email as its subject,
/// and verifies with that subject until it expires two hours later.
pub proof fn lemma_login_token_names_submitted_email(
    email: Seq<char>,
    secret: Seq<char>,
    token: Seq<char>,
    now: i64,
    at: i64,
)
    requires
        0 <= now <= i64::MAX - TOKEN_TTL_SECONDS,
        token_payload(token, secret) == Some(issued_payload(email, now, TOKEN_TTL_SECONDS)),
        at < now + TOKEN_TTL_SECONDS,
    ensures
        accepted_claims(token_payload(token, secret), at) == Some(
            (email, (now + TOKEN_TTL_SECONDS) as i64, now),
        ),
{
    lemma_issued_token_verifies(email, secret, token, now, TOKEN_TTL_SECONDS, at);
}

/// The token of an `Authorization` header of the form `Bearer <token>`.
pub open spec fn bearer_token(header: Seq<char>) -> Option<Seq<char>> {
    if header.len() >= 7 && header.subrange(0, 7) == "Bearer "@ {
        Some(header.subrange(7, header.len() as int))
    } else {
        None
    }
}

/// Authorizes a request from its `Authorization` header (`None` when absent
/// or unreadable): a missing header or one that is not a bearer token is
/// `Unauthorized`; otherwise the token is verified at `now`.
pub fn authorize(header: Option<&str>, secret: &str, now: i64) -> (r: ApiResult<Claims>)
    ensures
        match header {
            None => r == Err::<Claims, ApiError>(ApiError::Unauthorized),
            Some(h) => match bearer_token(h@) {
                None => r == Err::<Claims, ApiError>(ApiError::Unauthorized),
                Some(t) => match accepted_claims(token_payload(t, secret@), now) {
                    Some((sub, exp, iat)) => r is Ok && r->Ok_0.sub@ == sub && r->Ok_0.exp == exp
                        && r->Ok_0.iat == iat,
                    None => r is Err && r->Err_0 is Auth,
                },
            },
        },
{
    let h = match header {
        None => {
            return Err(ApiError::Unauthorized);
        },
        Some(h) => h,
    };
    proof {
        reveal_strlit("Bearer ");
    }
    let n = h.unicode_len();
    if n < 7 {
        return Err(ApiError::Unauthorized);
    }
    let prefix = h.substring_char(0, 7);
    let bearer = "Bearer ";
    let mut i: usize = 0;
    while i < 7
        invariant
            header == Some(h),
            n == h@.len(),
            n >= 7,
            prefix@ == h@.subrange(0, 7),
            bearer@ == "Bearer "@,
            bearer@.len() == 7,
            i <= 7,
            forall|j: int| 0 <= j < i ==> prefix@[j] == #[trigger] bearer@[j],
        decreases 7 - i,
    {
        let c = prefix.get_char(i);
        let expected = bearer.get_char(i);
        if c != expected {
            assert(h@.subrange(0, 7) != bearer@) by {
                assert(h@.subrange(0, 7)[i as int] != bearer@[i as int]);
            }
            assert(bearer_token(h@) is None);
            return Err(ApiError::Unauthorized);
        }
        i = i + 1;
    }
    assert(h@.subrange(0, 7) =~= bearer@);
    let token = h.substring_char(7, n);
    verify_token(token, secret, now)
}

} // verus!
