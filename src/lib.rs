//! Request-processing core of a catalog and quote-intake backend: credential
//! checks and session tokens, request validation, a tax-identifier checksum,
//! text sanitization, parameterized listing queries and the error taxonomy.

pub mod auth;
pub mod config;
pub mod email;
pub mod error;
pub mod intake;
pub mod models;
pub mod query;
pub mod storage;
mod text;
pub mod validation;

pub use auth::{
    authorize, check_credentials, generate_jwt, hash_password, issue_token, login_response,
    verify_jwt, verify_password, verify_token, Claims,
};
pub use error::{ApiError, ApiResult, ErrorResponse};
pub use validation::{sanitize_text, validate_ruc};
