use vstd::prelude::*;
use vstd::string::*;
use crate::error::{ApiError, ApiResult};
use crate::models::{
    CreateCategoryRequest, CreateProductRequest, CreateQuoteRequest, UpdateQuoteStatusRequest,
};
use crate::validation::{
    is_valid_ruc, product_rules, product_violations, quote_rules, quote_violations,
    render_violations, sanitize_opt, sanitize_text, sanitized, sanitized_opt, validate_ruc,
    validation_outcome,
};

verus! {

/// A quote request ready to be stored: free text sanitized, the rest as sent.
#[derive(Debug, Clone, PartialEq, Eq)]
pub struct NewQuote {
    pub company_name: String,
    pub company_tax_id: String,
    pub contact_name: String,
    pub email: String,
    pub phone: Option<String>,
    pub product_ids: Vec<i32>,
    pub estimated_quantity: Option<String>,
    pub message: Option<String>,
}

/// A product ready to be stored: free text sanitized, the warranty defaulted.
#[derive(Debug, Clone, PartialEq, Eq)]
pub struct NewProduct {
    pub name: String,
    pub slug: String,
    pub description: Option<String>,
    pub category_id: Option<i32>,
    pub brand: String,
    pub model_number: Option<String>,
    pub origin_country: String,
    pub warranty_period: i32,
    pub technical_sheet_url: Option<String>,
    pub registro_sanitario: String,
}

/// A category ready to be stored, its text sanitized.
#[derive(Debug, Clone, PartialEq, Eq)]
pub struct NewCategory {
    pub name: String,
    pub slug: String,
    pub description: Option<String>,
}

/// A quote status change ready to be stored, its text sanitized.
#[derive(Debug, Clone, PartialEq, Eq)]
pub struct StatusChange {
    pub status: String,
    pub notes: Option<String>,
}

/// The warranty, in months, of a product that states none.
pub const DEFAULT_WARRANTY_MONTHS: i32 = 12;

/// The checks of a quote request, in order: the field rules (all violations
/// reported together), then the tax identifier's checksum.
pub fn check_quote_request(req: &CreateQuoteRequest) -> (r: ApiResult<()>)
    ensures
        quote_rules(*req).len() > 0 ==> r is Err && r->Err_0 is Validation
            && r->Err_0->Validation_0@ == render_violations(quote_rules(*req)),
        quote_rules(*req).len() == 0 && !is_valid_ruc(req.company_tax_id@) ==> r
            == Err::<(), ApiError>(ApiError::InvalidRuc),
        r is Ok <==> quote_rules(*req).len() == 0 && is_valid_ruc(req.company_tax_id@),
{
    let violations = quote_violations(req);
    match validation_outcome(&violations) {
        Err(e) => Err(e),
        Ok(()) => {
            if validate_ruc(req.company_tax_id.as_str()) {
                Ok(())
            } else {
                Err(ApiError::InvalidRuc)
            }
        },
    }
}

/// Checks a quote request and sanitizes its free text for storage.
pub fn prepare_quote(req: &CreateQuoteRequest) -> (r: ApiResult<NewQuote>)
    ensures
        r is Ok <==> quote_rules(*req).len() == 0 && is_valid_ruc(req.company_tax_id@),
        quote_rules(*req).len() > 0 ==> r is Err && r->Err_0 is Validation
            && r->Err_0->Validation_0@ == render_violations(quote_rules(*req)),
        quote_rules(*req).len() == 0 && !is_valid_ruc(req.company_tax_id@) ==> r is Err
            && r->Err_0 is InvalidRuc,
        r is Ok ==> {
            let q = r->Ok_0;
            &&& q.company_name@ == sanitized(req.company_name@)
            &&& q.company_tax_id@ == req.company_tax_id@
            &&& q.contact_name@ == sanitized(req.contact_name@)
            &&& q.email@ == req.email@
            &&& q.phone == req.phone
            &&& q.product_ids@ == req.product_ids@
            &&& q.estimated_quantity.deep_view() == sanitized_opt(req.estimated_quantity)
            &&& q.message.deep_view() == sanitized_opt(req.message)
        },
{
    match check_quote_request(req) {
        Err(e) => Err(e),
        Ok(()) => Ok(
            NewQuote {
                company_name: sanitize_text(req.company_name.as_str()),
                company_tax_id: req.company_tax_id.clone(),
                contact_name: sanitize_text(req.contact_name.as_str()),
                email: req.email.clone(),
                phone: req.phone.clone(),
                product_ids: req.product_ids.clone(),
                estimated_quantity: sanitize_opt(&req.estimated_quantity),
                message: sanitize_opt(&req.message),
            },
        ),
    }
}

/// Checks a product request and sanitizes its free text for storage.
pub fn prepare_product(req: &CreateProductRequest) -> (r: ApiResult<NewProduct>)
    ensures
        r is Ok <==> product_rules(*req).len() == 0,
        r is Err ==> r->Err_0 is Validation && r->Err_0->Validation_0@ == render_violations(
            product_rules(*req),
        ),
        r is Ok ==> {
            let p = r->Ok_0;
            &&& p.name@ == sanitized(req.name@)
            &&& p.slug@ == sanitized(req.slug@)
            &&& p.description.deep_view() == sanitized_opt(req.description)
            &&& p.category_id == req.category_id
            &&& p.brand@ == sanitized(req.brand@)
            &&& p.model_number.deep_view() == sanitized_opt(req.model_number)
            &&& p.origin_country@ == sanitized(req.origin_country@)
            &&& p.warranty_period == match req.warranty_period {
                Some(w) => w,
                None => DEFAULT_WARRANTY_MONTHS,
            }
            &&& p.technical_sheet_url == req.technical_sheet_url
            &&& p.registro_sanitario@ == sanitized(req.registro_sanitario@)
        },
{
    let violations = product_violations(req);
    match validation_outcome(&violations) {
        Err(e) => Err(e),
        Ok(()) => Ok(
            NewProduct {
                name: sanitize_text(req.name.as_str()),
                slug: sanitize_text(req.slug.as_str()),
                description: sanitize_opt(&req.description),
                category_id: req.category_id,
                brand: sanitize_text(req.brand.as_str()),
                model_number: sanitize_opt(&req.model_number),
                origin_country: sanitize_text(req.origin_country.as_str()),
                warranty_period: match req.warranty_period {
                    Some(w) => w,
                    None => DEFAULT_WARRANTY_MONTHS,
                },
                technical_sheet_url: req.technical_sheet_url.clone(),
                registro_sanitario: sanitize_text(req.registro_sanitario.as_str()),
            },
        ),
    }
}

/// Sanitizes a category request for storage.
pub fn prepare_category(req: &CreateCategoryRequest) -> (r: NewCategory)
    ensures
        r.name@ == sanitized(req.name@),
        r.slug@ == sanitized(req.slug@),
        r.description.deep_view() == sanitized_opt(req.description),
{
    NewCategory {
        name: sanitize_text(req.name.as_str()),
        slug: sanitize_text(req.slug.as_str()),
        description: sanitize_opt(&req.description),
    }
}

/// Sanitizes a quote status change for storage.
pub fn prepare_status_change(req: &UpdateQuoteStatusRequest) -> (r: StatusChange)
    ensures
        r.status@ == sanitized(req.status@),
        r.notes.deep_view() == sanitized_opt(req.notes),
{
    StatusChange { status: sanitize_text(req.status.as_str()), notes: sanitize_opt(&req.notes) }
}

/// Joins product names for a notification, separated by `, `.
pub open spec fn joined_names(names: Seq<Seq<char>>) -> Seq<char>
    decreases names.len(),
{
    if names.len() == 0 {
        seq![]
    } else if names.len() == 1 {
        names[0]
    } else {
        joined_names(names.drop_last()) + ", "@ + names.last()
    }
}

/// Joins product names for a notification, separated by `, `.
pub fn join_product_names(names: &Vec<String>) -> (r: String)
    ensures
        r@ == joined_names(names.deep_view()),
{
    let mut out = String::new();
    let mut i: usize = 0;
    while i < names.len()
        invariant
            i <= names@.len(),
            out@ == joined_names(names.deep_view().take(i as int)),
        decreases names@.len() - i,
    {
        proof {
            let s = names.deep_view();
            assert(s.take(i + 1).drop_last() =~= s.take(i as int));
            assert(s.take(i + 1).last() == names@[i as int]@);
            if i == 0 {
                assert(s.take(1) =~= seq![names@[0]@]);
            }
        }
        if i > 0 {
            out.append(", ");
        }
        out.append(names[i].as_str());
        proof {
            reveal_strlit(", ");
            assert(out@ =~= joined_names(names.deep_view().take(i + 1)));
        }
        i = i + 1;
    }
    proof {
        assert(names.deep_view().take(names@.len() as int) =~= names.deep_view());
    }
    out
}

} // verus!
