use labmedical::intake::{check_quote_request, join_product_names, prepare_quote};
use labmedical::models::{CreateProductRequest, CreateQuoteRequest, LoginRequest};
use labmedical::validation::{login_violations, product_violations, quote_violations, validate_login};
use labmedical::{sanitize_text, validate_ruc, ApiError};

#[test]
fn test_ruc_formato_invalido() {
    assert!(!validate_ruc("123"));
    assert!(!validate_ruc(""));
    assert!(!validate_ruc("abcdefghijk"));
    assert!(!validate_ruc("1234567890"));
    assert!(!validate_ruc("123456789012"));
}

#[test]
fn test_ruc_prefijo_invalido() {
    assert!(!validate_ruc("30000000001"));
}

#[test]
fn test_sanitize_xss() {
    let input = "<script>alert('xss')</script>Texto seguro";
    let result = sanitize_text(input);
    assert!(!result.contains("<script>"));
    assert!(result.contains("Texto seguro"));
}

#[test]
fn ruc_valid_for_each_allowed_prefix() {
    assert!(validate_ruc("10462085139"));
    assert!(validate_ruc("15000000008"));
    assert!(validate_ruc("17123456785"));
    assert!(validate_ruc("20100047218"));
    assert!(validate_ruc("20601234565"));
}

#[test]
fn ruc_flipped_last_digit_fails() {
    assert!(!validate_ruc("20100047217"));
    assert!(!validate_ruc("20100047219"));
    assert!(!validate_ruc("10462085130"));
}

#[test]
fn ruc_flipped_interior_digit_fails() {
    assert!(!validate_ruc("20100047318"));
    assert!(!validate_ruc("20110047218"));
    assert!(!validate_ruc("17123457785"));
}

#[test]
fn ruc_check_digit_one_hides_some_changes() {
    assert!(validate_ruc("20000000001"));
    assert!(validate_ruc("20400000001"));
    assert!(validate_ruc("10123456781"));
    assert!(validate_ruc("10123456721"));
}

#[test]
fn ruc_disallowed_prefix_with_matching_checksum_fails() {
    assert!(!validate_ruc("30000000001"));
    assert!(!validate_ruc("11000000000"));
}

#[test]
fn ruc_non_ascii_digits_fail() {
    assert!(!validate_ruc("2010004721８"));
    assert!(!validate_ruc("2010004721a"));
    assert!(!validate_ruc(" 20100047218"));
}

#[test]
fn sanitizer_keeps_plain_text_and_is_idempotent() {
    let once = sanitize_text("Hola <script>alert(1)</script>mundo");
    assert!(!once.contains("<script"));
    assert!(!once.contains("alert(1)"));
    assert!(once.contains("Hola "));
    assert!(once.contains("mundo"));
    let twice = sanitize_text(&once);
    assert_eq!(once, twice);
    assert_eq!(sanitize_text("texto plano"), "texto plano");
}

fn quote(company: &str, email: &str) -> CreateQuoteRequest {
    CreateQuoteRequest {
        company_name: company.to_string(),
        company_tax_id: "20100047218".to_string(),
        contact_name: "Ana Perez".to_string(),
        email: email.to_string(),
        phone: None,
        product_ids: vec![1, 2],
        estimated_quantity: None,
        message: Some("Hola".to_string()),
    }
}

#[test]
fn two_broken_rules_are_both_reported() {
    let v = quote_violations(&quote("A", "no-es-un-email"));
    assert_eq!(v.len(), 2);
    assert_eq!(v[0].field, "company_name");
    assert_eq!(v[0].rule, "length");
    assert_eq!(v[1].field, "email");
    assert_eq!(v[1].rule, "email");
    match check_quote_request(&quote("A", "no-es-un-email")) {
        Err(ApiError::Validation(msg)) => {
            assert_eq!(msg, "company_name: longitud fuera de rango; email: email invalido");
        }
        other => panic!("unexpected {:?}", other),
    }
}

#[test]
fn quote_with_bad_tax_id_is_refused() {
    let mut q = quote("Clinica Sur", "ana@example.com");
    q.company_tax_id = "20100047217".to_string();
    assert_eq!(check_quote_request(&q), Err(ApiError::InvalidRuc));
}

#[test]
fn quote_without_products_breaks_length_rule() {
    let mut q = quote("Clinica Sur", "ana@example.com");
    q.product_ids = vec![];
    let v = quote_violations(&q);
    assert_eq!(v.len(), 1);
    assert_eq!(v[0].field, "product_ids");
}

#[test]
fn valid_quote_is_sanitized() {
    let mut q = quote("Clinica <b>Sur</b><script>x()</script>", "ana@example.com");
    q.message = Some("<script>evil()</script>Necesito precios".to_string());
    let n = prepare_quote(&q).unwrap();
    assert!(!n.company_name.contains("<script"));
    assert!(n.company_name.contains("Clinica"));
    assert_eq!(n.message.unwrap(), "Necesito precios");
    assert_eq!(n.company_tax_id, "20100047218");
    assert_eq!(n.product_ids, vec![1, 2]);
}

#[test]
fn login_rules_are_aggregated() {
    let req = LoginRequest { email: "nope".to_string(), password: "123".to_string() };
    let v = login_violations(&req);
    assert_eq!(v.len(), 2);
    assert_eq!(v[0].field, "email");
    assert_eq!(v[1].field, "password");
    let ok = LoginRequest { email: "admin@example.com".to_string(), password: "secreto1".to_string() };
    assert!(login_violations(&ok).is_empty());
    assert_eq!(validate_login(&ok), Ok(()));
}

fn product() -> CreateProductRequest {
    CreateProductRequest {
        name: "Monitor".to_string(),
        slug: "monitor".to_string(),
        description: None,
        category_id: Some(3),
        brand: "Acme".to_string(),
        model_number: None,
        origin_country: "Peru".to_string(),
        warranty_period: Some(24),
        technical_sheet_url: Some("https://example.com/ficha.pdf".to_string()),
        registro_sanitario: "RS-1".to_string(),
    }
}

#[test]
fn product_rules_range_and_url() {
    assert!(product_violations(&product()).is_empty());
    let mut p = product();
    p.warranty_period = Some(121);
    p.technical_sheet_url = Some("no es url".to_string());
    let v = product_violations(&p);
    assert_eq!(v.len(), 2);
    assert_eq!(v[0].rule, "range");
    assert_eq!(v[1].rule, "url");
    let mut p = product();
    p.warranty_period = Some(120);
    assert!(product_violations(&p).is_empty());
}

#[test]
fn product_names_are_joined() {
    assert_eq!(join_product_names(&vec![]), "");
    assert_eq!(join_product_names(&vec!["A".to_string()]), "A");
    assert_eq!(join_product_names(&vec!["A".to_string(), "B".to_string()]), "A, B");
}
