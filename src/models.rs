use vstd::prelude::*;

verus! {

/// An administrator as stored: the digest only, never the password. Times
/// are seconds since the epoch.
#[derive(Debug, Clone, PartialEq, Eq)]
pub struct Admin {
    pub id: i32,
    pub email: String,
    pub password_hash: String,
    pub name: Option<String>,
    pub created_at: i64,
    pub last_login: Option<i64>,
}

#[derive(Debug, Clone, PartialEq, Eq)]
pub struct LoginRequest {
    pub email: String,
    pub password: String,
}

#[derive(Debug, Clone, PartialEq, Eq)]
pub struct AdminInfo {
    pub id: i32,
    pub email: String,
    pub name: Option<String>,
}

#[derive(Debug, Clone, PartialEq, Eq)]
pub struct LoginResponse {
    pub token: String,
    pub admin: AdminInfo,
}

#[derive(Debug, Clone, PartialEq, Eq)]
pub struct CreateCategoryRequest {
    pub name: String,
    pub slug: String,
    pub description: Option<String>,
}

#[derive(Debug, Clone, PartialEq, Eq)]
pub struct UpdateCategoryRequest {
    pub name: Option<String>,
    pub slug: Option<String>,
    pub description: Option<String>,
}

#[derive(Debug, Clone, PartialEq, Eq)]
pub struct CreateQuoteRequest {
    pub company_name: String,
    pub company_tax_id: String,
    pub contact_name: String,
    pub email: String,
    pub phone: Option<String>,
    pub product_ids: Vec<i32>,
    pub estimated_quantity: Option<String>,
    pub message: Option<String>,
}

#[derive(Debug, Clone, PartialEq, Eq)]
pub struct UpdateQuoteStatusRequest {
    pub status: String,
    pub notes: Option<String>,
}

/// The free-text part of a product, as it is validated and stored. The JSON
/// documents (specifications, regulatory information) travel beside it.
#[derive(Debug, Clone, PartialEq, Eq)]
pub struct CreateProductRequest {
    pub name: String,
    pub slug: String,
    pub description: Option<String>,
    pub category_id: Option<i32>,
    pub brand: String,
    pub model_number: Option<String>,
    pub origin_country: String,
    pub warranty_period: Option<i32>,
    pub technical_sheet_url: Option<String>,
    pub registro_sanitario: String,
}

/// Public product listing: optional category slug and search term, and the
/// page asked for.
#[derive(Debug, Clone, PartialEq, Eq)]
pub struct ProductQuery {
    pub category: Option<String>,
    pub search: Option<String>,
    pub page: Option<i32>,
    pub limit: Option<i32>,
}

/// Administrator product listing, optionally by active flag.
#[derive(Debug, Clone, PartialEq, Eq)]
pub struct AdminProductQuery {
    pub page: Option<i32>,
    pub limit: Option<i32>,
    pub active: Option<bool>,
}

/// Administrator quote listing, optionally by status.
#[derive(Debug, Clone, PartialEq, Eq)]
pub struct QuoteQuery {
    pub status: Option<String>,
    pub page: Option<i32>,
    pub limit: Option<i32>,
}

} // verus!
