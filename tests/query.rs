use labmedical::models::{AdminProductQuery, ProductQuery, QuoteQuery};
use labmedical::query::{
    build_admin_product_listing, build_product_listing, build_quote_listing, paginate,
    product_listing, SqlParam, SqlQuery, ADMIN_PAGE_SIZE, PUBLIC_PAGE_SIZE,
};

fn placeholders(sql: &str) -> usize {
    sql.chars().filter(|c| *c == '$').count()
}

#[test]
fn limit_and_page_are_clamped() {
    let p = paginate(Some(0), Some(500), PUBLIC_PAGE_SIZE);
    assert_eq!((p.page, p.limit, p.offset), (1, 100, 0));
    let p = paginate(Some(-3), Some(0), PUBLIC_PAGE_SIZE);
    assert_eq!((p.page, p.limit, p.offset), (1, 1, 0));
    let p = paginate(None, None, PUBLIC_PAGE_SIZE);
    assert_eq!((p.page, p.limit, p.offset), (1, 20, 0));
    let p = paginate(None, None, ADMIN_PAGE_SIZE);
    assert_eq!(p.limit, 50);
    let p = paginate(Some(i32::MAX), Some(100), PUBLIC_PAGE_SIZE);
    assert_eq!(p.offset, (i32::MAX as i64 - 1) * 100);
}

#[test]
fn second_page_of_ten_starts_at_row_eleven() {
    let q = ProductQuery { category: None, search: None, page: Some(2), limit: Some(10) };
    let l = build_product_listing(&q);
    assert_eq!(l.pagination.offset, 10);
    assert_eq!(
        l.rows.sql(),
        "SELECT * FROM products WHERE is_active = true ORDER BY created_at DESC LIMIT $1 OFFSET $2"
    );
    assert_eq!(l.rows.params(), &vec![SqlParam::Int(10), SqlParam::Int(10)]);
    assert_eq!(l.count.sql(), "SELECT COUNT(*) FROM products WHERE is_active = true");
    assert!(l.count.params().is_empty());
}

#[test]
fn filters_are_bound_not_interpolated() {
    let q = ProductQuery {
        category: Some("equipos' OR '1'='1".to_string()),
        search: Some("monitor".to_string()),
        page: Some(3),
        limit: Some(500),
    };
    let l = build_product_listing(&q);
    let sql = l.rows.sql();
    assert!(!sql.contains("OR '1'='1"));
    assert!(!sql.contains("monitor"));
    assert_eq!(placeholders(sql), l.rows.params().len());
    assert_eq!(placeholders(l.count.sql()), l.count.params().len());
    assert_eq!(
        sql,
        "SELECT * FROM products WHERE is_active = true AND category_id = (SELECT id FROM categories WHERE slug = $1) AND (name ILIKE $2 OR description ILIKE $3) ORDER BY created_at DESC LIMIT $4 OFFSET $5"
    );
    let params = l.rows.params();
    assert_eq!(params[0], SqlParam::Text("equipos' OR '1'='1".to_string()));
    assert_eq!(params[1], SqlParam::Text("%monitor%".to_string()));
    assert_eq!(params[2], SqlParam::Text("%monitor%".to_string()));
    assert_eq!(params[3], SqlParam::Int(100));
    assert_eq!(params[4], SqlParam::Int(200));
    assert_eq!(&l.count.params()[..], &params[..3]);
}

#[test]
fn search_value_is_sanitized_before_binding() {
    let q = ProductQuery {
        category: None,
        search: Some("<script>x()</script>bomba".to_string()),
        page: None,
        limit: None,
    };
    let l = build_product_listing(&q);
    assert_eq!(l.rows.params()[0], SqlParam::Text("%bomba%".to_string()));
}

#[test]
fn unsanitized_listing_takes_values_as_given() {
    let l = product_listing(Some("rayos-x"), None, Some(1), Some(5));
    assert_eq!(l.rows.params()[0], SqlParam::Text("rayos-x".to_string()));
    assert_eq!(l.pagination.limit, 5);
}

#[test]
fn admin_listing_binds_active_flag() {
    let l = build_admin_product_listing(&AdminProductQuery { page: None, limit: None, active: Some(false) });
    assert_eq!(
        l.rows.sql(),
        "SELECT * FROM products WHERE is_active = $1 ORDER BY created_at DESC LIMIT $2 OFFSET $3"
    );
    assert_eq!(l.rows.params(), &vec![SqlParam::Bool(false), SqlParam::Int(50), SqlParam::Int(0)]);
    assert_eq!(l.count.sql(), "SELECT COUNT(*) FROM products WHERE is_active = $1");
    let all = build_admin_product_listing(&AdminProductQuery { page: None, limit: None, active: None });
    assert_eq!(all.count.sql(), "SELECT COUNT(*) FROM products");
}

#[test]
fn quote_listing_binds_status() {
    let l = build_quote_listing(&QuoteQuery { status: Some("pending".to_string()), page: Some(2), limit: None });
    assert_eq!(
        l.rows.sql(),
        "SELECT * FROM quotes WHERE status = $1 ORDER BY created_at DESC LIMIT $2 OFFSET $3"
    );
    assert_eq!(
        l.rows.params(),
        &vec![SqlParam::Text("pending".to_string()), SqlParam::Int(50), SqlParam::Int(50)]
    );
    assert_eq!(l.count.params(), &vec![SqlParam::Text("pending".to_string())]);
}

#[test]
fn many_placeholders_are_numbered_in_order() {
    let mut q = SqlQuery::new("SELECT 1");
    for i in 0..12 {
        q.push_sql(" ,");
        q.push_param(SqlParam::Int(i));
    }
    assert!(q.sql().ends_with(",$10 ,$11 ,$12"));
    assert_eq!(placeholders(q.sql()), 12);
}
