use vstd::prelude::*;
use vstd::string::*;

verus! {

/// Every failure of the request pipeline. The string payloads are internal
/// detail: they reach the caller only for `Validation` and `BadRequest`,
/// whose content came from the caller in the first place.
#[derive(Debug, Clone, PartialEq, Eq)]
pub enum ApiError {
    Database(String),
    Auth(String),
    Validation(String),
    NotFound(String),
    Internal(String),
    BadRequest(String),
    Unauthorized,
    RateLimitExceeded,
    InvalidRuc,
}

pub type ApiResult<T> = Result<T, ApiError>;

/// The closed set of error kinds, without their detail.
#[derive(Debug, Clone, Copy, PartialEq, Eq, Structural)]
pub enum ErrorKind {
    Database,
    Auth,
    Validation,
    NotFound,
    Internal,
    BadRequest,
    Unauthorized,
    RateLimitExceeded,
    InvalidRuc,
}

/// What the caller sees of a failure: a status class, a stable machine code
/// and a message that is safe to display.
#[derive(Debug, Clone, PartialEq, Eq)]
pub struct ErrorResponse {
    pub status: u16,
    pub code: String,
    pub message: String,
}

/// A record for the operator-facing log: the kind of failure and its
/// internal detail. It never reaches the caller.
#[derive(Debug, Clone, PartialEq, Eq)]
pub struct DiagnosticRecord {
    pub error_type: String,
    pub details: String,
}

pub open spec fn validation_prefix() -> Seq<char> {
    "Error de validación: "@
}

impl ApiError {
    pub open spec fn spec_kind(&self) -> ErrorKind {
        match self {
            ApiError::Database(_) => ErrorKind::Database,
            ApiError::Auth(_) => ErrorKind::Auth,
            ApiError::Validation(_) => ErrorKind::Validation,
            ApiError::NotFound(_) => ErrorKind::NotFound,
            ApiError::Internal(_) => ErrorKind::Internal,
            ApiError::BadRequest(_) => ErrorKind::BadRequest,
            ApiError::Unauthorized => ErrorKind::Unauthorized,
            ApiError::RateLimitExceeded => ErrorKind::RateLimitExceeded,
            ApiError::InvalidRuc => ErrorKind::InvalidRuc,
        }
    }

    /// The kinds whose caller-facing message carries caller-supplied context.
    pub open spec fn echoes_detail(&self) -> bool {
        self is Validation || self is BadRequest
    }

    pub open spec fn spec_status(&self) -> u16 {
        match self {
            ApiError::Database(_) => 500,
            ApiError::Auth(_) => 401,
            ApiError::Validation(_) => 400,
            ApiError::NotFound(_) => 404,
            ApiError::Internal(_) => 500,
            ApiError::BadRequest(_) => 400,
            ApiError::Unauthorized => 401,
            ApiError::RateLimitExceeded => 429,
            ApiError::InvalidRuc => 400,
        }
    }

    pub open spec fn spec_code(&self) -> Seq<char> {
        match self {
            ApiError::Database(_) => "ERR_INTERNAL_SERVER"@,
            ApiError::Auth(_) => "ERR_UNAUTHORIZED"@,
            ApiError::Validation(_) => "ERR_VALIDATION"@,
            ApiError::NotFound(_) => "ERR_NOT_FOUND"@,
            ApiError::Internal(_) => "ERR_INTERNAL_SERVER"@,
            ApiError::BadRequest(_) => "ERR_BAD_REQUEST"@,
            ApiError::Unauthorized => "ERR_UNAUTHORIZED"@,
            ApiError::RateLimitExceeded => "ERR_RATE_LIMIT"@,
            ApiError::InvalidRuc => "ERR_INVALID_RUC"@,
        }
    }

    pub open spec fn spec_message(&self) -> Seq<char> {
        match self {
            ApiError::Database(_) => "Error interno del servidor"@,
            ApiError::Auth(_) => "Credenciales inválidas"@,
            ApiError::Validation(msg) => validation_prefix() + msg@,
            ApiError::NotFound(_) => "Recurso no encontrado"@,
            ApiError::Internal(_) => "Error interno del servidor"@,
            ApiError::BadRequest(msg) => msg@,
            ApiError::Unauthorized => "No autorizado"@,
            ApiError::RateLimitExceeded => "Demasiadas solicitudes, intente en unos minutos"@,
            ApiError::InvalidRuc => "El RUC proporcionado no es valido"@,
        }
    }

    /// The operator-facing record of a failure, for the kinds that log one.
    pub open spec fn spec_diagnostic(&self) -> Option<(Seq<char>, Seq<char>)> {
        match self {
            ApiError::Database(d) => Some(("database"@, d@)),
            ApiError::Auth(d) => Some(("auth"@, d@)),
            ApiError::Internal(d) => Some(("internal"@, d@)),
            _ => None,
        }
    }

    pub fn kind(&self) -> (k: ErrorKind)
        ensures
            k == self.spec_kind(),
    {
        match self {
            ApiError::Database(_) => ErrorKind::Database,
            ApiError::Auth(_) => ErrorKind::Auth,
            ApiError::Validation(_) => ErrorKind::Validation,
            ApiError::NotFound(_) => ErrorKind::NotFound,
            ApiError::Internal(_) => ErrorKind::Internal,
            ApiError::BadRequest(_) => ErrorKind::BadRequest,
            ApiError::Unauthorized => ErrorKind::Unauthorized,
            ApiError::RateLimitExceeded => ErrorKind::RateLimitExceeded,
            ApiError::InvalidRuc => ErrorKind::InvalidRuc,
        }
    }

    /// The status class of the response.
    pub fn status(&self) -> (s: u16)
        ensures
            s == self.spec_status(),
    {
        match self {
            ApiError::Database(_) => 500,
            ApiError::Auth(_) => 401,
            ApiError::Validation(_) => 400,
            ApiError::NotFound(_) => 404,
            ApiError::Internal(_) => 500,
            ApiError::BadRequest(_) => 400,
            ApiError::Unauthorized => 401,
            ApiError::RateLimitExceeded => 429,
            ApiError::InvalidRuc => 400,
        }
    }

    /// The stable machine code of the response.
    pub fn code(&self) -> (c: String)
        ensures
            c@ == self.spec_code(),
    {
        let c = match self {
            ApiError::Database(_) => "ERR_INTERNAL_SERVER",
            ApiError::Auth(_) => "ERR_UNAUTHORIZED",
            ApiError::Validation(_) => "ERR_VALIDATION",
            ApiError::NotFound(_) => "ERR_NOT_FOUND",
            ApiError::Internal(_) => "ERR_INTERNAL_SERVER",
            ApiError::BadRequest(_) => "ERR_BAD_REQUEST",
            ApiError::Unauthorized => "ERR_UNAUTHORIZED",
            ApiError::RateLimitExceeded => "ERR_RATE_LIMIT",
            ApiError::InvalidRuc => "ERR_INVALID_RUC",
        };
        String::from_str(c)
    }

    /// The caller-facing message: fixed text for every kind but
    /// `Validation` and `BadRequest`.
    pub fn public_message(&self) -> (m: String)
        ensures
            m@ == self.spec_message(),
    {
        match self {
            ApiError::Validation(msg) => String::from_str("Error de validación: ").concat(msg.as_str()),
            ApiError::BadRequest(msg) => msg.clone(),
            ApiError::Database(_) => String::from_str("Error interno del servidor"),
            ApiError::Auth(_) => String::from_str("Credenciales inválidas"),
            ApiError::NotFound(_) => String::from_str("Recurso no encontrado"),
            ApiError::Internal(_) => String::from_str("Error interno del servidor"),
            ApiError::Unauthorized => String::from_str("No autorizado"),
            ApiError::RateLimitExceeded => String::from_str(
                "Demasiadas solicitudes, intente en unos minutos",
            ),
            ApiError::InvalidRuc => String::from_str("El RUC proporcionado no es valido"),
        }
    }

    /// The response that the caller receives for this failure.
    pub fn to_response(&self) -> (r: ErrorResponse)
        ensures
            r.status == self.spec_status(),
            r.code@ == self.spec_code(),
            r.message@ == self.spec_message(),
    {
        ErrorResponse { status: self.status(), code: self.code(), message: self.public_message() }
    }

    /// The record written to the operator-facing log, if this kind logs one.
    pub fn diagnostic(&self) -> (d: Option<DiagnosticRecord>)
        ensures
            match self.spec_diagnostic() {
                Some((kind, detail)) => d is Some && d->0.error_type@ == kind && d->0.details@
                    == detail,
                None => d is None,
            },
    {
        match self {
            ApiError::Database(e) => Some(
                DiagnosticRecord { error_type: String::from_str("database"), details: e.clone() },
            ),
            ApiError::Auth(e) => Some(
                DiagnosticRecord { error_type: String::from_str("auth"), details: e.clone() },
            ),
            ApiError::Internal(e) => Some(
                DiagnosticRecord { error_type: String::from_str("internal"), details: e.clone() },
            ),
            _ => None,
        }
    }
}

/// Two failures of the same kind that does not echo caller context get the
/// same response, whatever their internal detail: no backend text, cause or
/// stack detail reaches the caller.
pub proof fn lemma_detail_never_shown(a: ApiError, b: ApiError)
    requires
        a.spec_kind() == b.spec_kind(),
        !a.echoes_detail(),
    ensures
        a.spec_status() == b.spec_status(),
        a.spec_code() == b.spec_code(),
        a.spec_message() == b.spec_message(),
{
}

} // verus!
