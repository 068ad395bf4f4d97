use vstd::prelude::*;
use vstd::string::*;
use crate::models::{AdminProductQuery, ProductQuery, QuoteQuery};
use crate::validation::{sanitize_opt, sanitize_text, sanitized_opt};

verus! {

/// A value bound to a placeholder of a query.
#[derive(Debug, Clone, PartialEq, Eq)]
pub enum SqlParam {
    Text(String),
    Bool(bool),
    Int(i64),
}

/// What a bound value is, for contracts.
pub enum ParamView {
    Text(Seq<char>),
    Bool(bool),
    Int(i64),
}

impl View for SqlParam {
    type V = ParamView;

    open spec fn view(&self) -> ParamView {
        match self {
            SqlParam::Text(s) => ParamView::Text(s@),
            SqlParam::Bool(b) => ParamView::Bool(*b),
            SqlParam::Int(i) => ParamView::Int(*i),
        }
    }
}

pub open spec fn param_views(params: Seq<SqlParam>) -> Seq<ParamView> {
    params.map_values(|p: SqlParam| p@)
}

pub open spec fn digit_char(d: nat) -> char {
    if d == 0 {
        '0'
    } else if d == 1 {
        '1'
    } else if d == 2 {
        '2'
    } else if d == 3 {
        '3'
    } else if d == 4 {
        '4'
    } else if d == 5 {
        '5'
    } else if d == 6 {
        '6'
    } else if d == 7 {
        '7'
    } else if d == 8 {
        '8'
    } else {
        '9'
    }
}

/// The decimal digits of `n`.
pub open spec fn decimal(n: nat) -> Seq<char>
    decreases n,
{
    if n < 10 {
        seq![digit_char(n)]
    } else {
        decimal(n / 10) + seq![digit_char(n % 10)]
    }
}

/// The `n`-th placeholder: `$n`.
pub open spec fn placeholder(n: nat) -> Seq<char> {
    seq!['$'] + decimal(n)
}

/// Query text made of literal pieces with the placeholders `$1`, `$2`, ...
/// between them, in order: `pieces[0] $1 pieces[1] $2 ... $n pieces[n]`.
pub open spec fn with_placeholders(pieces: Seq<Seq<char>>) -> Seq<char>
    decreases pieces.len(),
{
    if pieces.len() == 0 {
        seq![]
    } else if pieces.len() == 1 {
        pieces[0]
    } else {
        with_placeholders(pieces.drop_last()) + placeholder((pieces.len() - 1) as nat)
            + pieces.last()
    }
}

/// A literal piece of query text: it holds no `$` and does not start with a
/// digit, so that no placeholder can be read into it or run on into it.
pub open spec fn is_clean_piece(s: Seq<char>) -> bool {
    &&& forall|i: int| 0 <= i < s.len() ==> #[trigger] s[i] != '$'
    &&& s.len() > 0 ==> !('0' <= s[0] && s[0] <= '9')
}

/// The shape of a query: its literal pieces and the values bound to the
/// placeholders between them.
pub type QueryView = (Seq<Seq<char>>, Seq<ParamView>);

/// A query that starts with literal text.
pub open spec fn start(lit: Seq<char>) -> QueryView {
    (seq![lit], seq![])
}

/// Literal text appended.
pub open spec fn then_sql(q: QueryView, lit: Seq<char>) -> QueryView {
    (q.0.update(q.0.len() - 1, q.0.last() + lit), q.1)
}

/// A placeholder appended, bound to `p`.
pub open spec fn then_param(q: QueryView, p: ParamView) -> QueryView {
    (q.0.push(seq![]), q.1.push(p))
}

/// A parameterized query: text whose every dynamic value is a placeholder,
/// and the values bound to the placeholders, in order.
pub struct SqlQuery {
    sql: String,
    params: Vec<SqlParam>,
    pieces: Ghost<Seq<Seq<char>>>,
}

impl View for SqlQuery {
    type V = QueryView;

    closed spec fn view(&self) -> QueryView {
        (self.pieces@, param_views(self.params@))
    }
}

impl SqlQuery {
    pub closed spec fn spec_sql(&self) -> Seq<char> {
        self.sql@
    }

    /// The text is the pieces with numbered placeholders between them, one
    /// placeholder for each bound value.
    pub open spec fn wf(&self) -> bool {
        &&& is_wf_shape(self@)
        &&& self.spec_sql() == with_placeholders(self@.0)
    }

    /// A query that starts with `lit`.
    pub fn new(lit: &str) -> (q: SqlQuery)
        requires
            is_clean_piece(lit@),
        ensures
            q.wf(),
            q@ == start(lit@),
    {
        let ghost first: Seq<Seq<char>> = seq![lit@];
        let q = SqlQuery { sql: String::from_str(lit), params: Vec::new(), pieces: Ghost(first) };
        proof {
            assert(q@.1 =~= seq![]);
        }
        q
    }

    /// Appends literal query text.
    pub fn push_sql(&mut self, lit: &str)
        requires
            old(self).wf(),
            is_clean_piece(lit@),
        ensures
            final(self).wf(),
            final(self)@ == then_sql(old(self)@, lit@),
    {
        let ghost old_pieces = self.pieces@;
        let ghost old_view = self@;
        let ghost n = old_pieces.len();
        self.sql.append(lit);
        self.pieces = Ghost(old_pieces.update(n - 1, old_pieces.last() + lit@));
        proof {
            lemma_then_sql_wf(old_view, lit@);
            assert(self.pieces@.drop_last() =~= old_pieces.drop_last());
            assert(self.sql@ =~= with_placeholders(self.pieces@));
        }
    }

    /// Appends the next placeholder, `$n`, bound to `param`.
    pub fn push_param(&mut self, param: SqlParam)
        requires
            old(self).wf(),
            old(self)@.1.len() + 1 < usize::MAX,
        ensures
            final(self).wf(),
            final(self)@ == then_param(old(self)@, param@),
    {
        let ghost old_pieces = self.pieces@;
        let ghost old_view = self@;
        let ghost old_params = param_views(self.params@);
        let n = self.params.len() + 1;
        proof {
            assert(self.params@.len() == old_params.len());
        }
        self.sql.append("$");
        append_decimal(&mut self.sql, n);
        let ghost pv = param@;
        self.params.push(param);
        self.pieces = Ghost(old_pieces.push(seq![]));
        proof {
            reveal_strlit("$");
            let p = self.pieces@;
            assert(p.drop_last() =~= old_pieces);
            assert(param_views(self.params@) =~= old_params.push(pv));
            assert(self.sql@ =~= with_placeholders(p));
            lemma_then_param_wf(old_view, pv);
        }
    }

    /// The query text.
    pub fn sql(&self) -> (r: &str)
        ensures
            r@ == self.spec_sql(),
    {
        self.sql.as_str()
    }

    /// The bound values, in placeholder order.
    pub fn params(&self) -> (r: &Vec<SqlParam>)
        ensures
            param_views(r@) == self@.1,
    {
        &self.params
    }
}

fn digit_str(d: usize) -> (r: &'static str)
    requires
        d < 10,
    ensures
        r@ == seq![digit_char(d as nat)],
{
    proof {
        reveal_strlit("0");
        reveal_strlit("1");
        reveal_strlit("2");
        reveal_strlit("3");
        reveal_strlit("4");
        reveal_strlit("5");
        reveal_strlit("6");
        reveal_strlit("7");
        reveal_strlit("8");
        reveal_strlit("9");
    }
    if d == 0 {
        "0"
    } else if d == 1 {
        "1"
    } else if d == 2 {
        "2"
    } else if d == 3 {
        "3"
    } else if d == 4 {
        "4"
    } else if d == 5 {
        "5"
    } else if d == 6 {
        "6"
    } else if d == 7 {
        "7"
    } else if d == 8 {
        "8"
    } else {
        "9"
    }
}

fn append_decimal(s: &mut String, n: usize)
    ensures
        final(s)@ == old(s)@ + decimal(n as nat),
    decreases n,
{
    if n >= 10 {
        append_decimal(s, n / 10);
    }
    s.append(digit_str(n % 10));
    proof {
        assert(final(s)@ =~= old(s)@ + decimal(n as nat));
    }
}

/// Number of `$` signs in a text.
pub open spec fn dollar_count(s: Seq<char>) -> nat
    decreases s.len(),
{
    if s.len() == 0 {
        0
    } else {
        dollar_count(s.drop_last()) + if s.last() == '$' {
            1nat
        } else {
            0nat
        }
    }
}

proof fn lemma_dollar_count_concat(a: Seq<char>, b: Seq<char>)
    ensures
        dollar_count(a + b) == dollar_count(a) + dollar_count(b),
    decreases b.len(),
{
    if b.len() == 0 {
        assert(a + b =~= a);
    } else {
        lemma_dollar_count_concat(a, b.drop_last());
        assert((a + b).drop_last() =~= a + b.drop_last());
    }
}

proof fn lemma_no_dollar(s: Seq<char>)
    requires
        forall|i: int| 0 <= i < s.len() ==> #[trigger] s[i] != '$',
    ensures
        dollar_count(s) == 0,
    decreases s.len(),
{
    if s.len() > 0 {
        lemma_no_dollar(s.drop_last());
    }
}

proof fn lemma_decimal_no_dollar(n: nat)
    ensures
        dollar_count(decimal(n)) == 0,
    decreases n,
{
    if n >= 10 {
        lemma_decimal_no_dollar(n / 10);
        lemma_dollar_count_concat(decimal(n / 10), seq![digit_char(n % 10)]);
        lemma_no_dollar(seq![digit_char(n % 10)]);
    } else {
        lemma_no_dollar(seq![digit_char(n)]);
    }
}

proof fn lemma_pieces_count(pieces: Seq<Seq<char>>)
    requires
        pieces.len() >= 1,
        forall|i: int| 0 <= i < pieces.len() ==> is_clean_piece(#[trigger] pieces[i]),
    ensures
        dollar_count(with_placeholders(pieces)) == pieces.len() - 1,
    decreases pieces.len(),
{
    if pieces.len() == 1 {
        lemma_no_dollar(pieces[0]);
    } else {
        let init = pieces.drop_last();
        assert forall|i: int| 0 <= i < init.len() implies is_clean_piece(#[trigger] init[i]) by {
            assert(init[i] == pieces[i]);
        }
        lemma_pieces_count(init);
        let k = (pieces.len() - 1) as nat;
        lemma_decimal_no_dollar(k);
        lemma_dollar_count_concat(seq!['$'], decimal(k));
        lemma_no_dollar(pieces.last());
        lemma_dollar_count_concat(with_placeholders(init), placeholder(k));
        lemma_dollar_count_concat(with_placeholders(init) + placeholder(k), pieces.last());
        let one: Seq<char> = seq!['$'];
        assert(one.drop_last() =~= Seq::<char>::empty());
        assert(dollar_count(one.drop_last()) == 0);
        assert(one.last() == '$');
        assert(dollar_count(one) == 1);
    }
}

/// In a well-formed query the text holds exactly one `$` per bound value:
/// the placeholders `$1` to `$n`, in order, the k-th bound to the k-th value.
pub proof fn lemma_placeholders_match_params(q: SqlQuery)
    requires
        q.wf(),
    ensures
        dollar_count(q.spec_sql()) == q@.1.len(),
        q.spec_sql() == with_placeholders(q@.0),
{
    lemma_pieces_count(q@.0);
}

/// The largest page a listing hands out.
pub const MAX_PAGE_SIZE: i32 = 100;

/// Page size of the public product listing when none is asked for.
pub const PUBLIC_PAGE_SIZE: i32 = 20;

/// Page size of the administrator listings when none is asked for.
pub const ADMIN_PAGE_SIZE: i32 = 50;

/// Page and page size after clamping, and the offset of the page's first row.
#[derive(Debug, Clone, Copy, PartialEq, Eq, Structural)]
pub struct Pagination {
    pub page: i32,
    pub limit: i32,
    pub offset: i64,
}

/// The page asked for, at least 1; the first page when none is asked for.
pub open spec fn clamped_page(page: Option<i32>) -> i32 {
    match page {
        Some(p) => if p < 1 {
            1
        } else {
            p
        },
        None => 1,
    }
}

/// The page size asked for (or the default), clamped into `[1, 100]`.
pub open spec fn clamped_limit(limit: Option<i32>, default_limit: i32) -> i32 {
    let l = match limit {
        Some(l) => l,
        None => default_limit,
    };
    if l < 1 {
        1
    } else if l > MAX_PAGE_SIZE {
        MAX_PAGE_SIZE
    } else {
        l
    }
}

pub open spec fn spec_paginate(page: Option<i32>, limit: Option<i32>, default_limit: i32) -> Pagination {
    let p = clamped_page(page);
    let l = clamped_limit(limit, default_limit);
    Pagination { page: p, limit: l, offset: ((p - 1) * l) as i64 }
}

/// Clamps the page to at least 1 and the page size into `[1, 100]`; out of
/// range input is corrected, never refused. The offset is
/// `(page - 1) * limit`.
pub fn paginate(page: Option<i32>, limit: Option<i32>, default_limit: i32) -> (r: Pagination)
    ensures
        r == spec_paginate(page, limit, default_limit),
        r.page >= 1,
        1 <= r.limit <= MAX_PAGE_SIZE,
        r.offset == (r.page - 1) * r.limit,
{
    let p: i32 = match page {
        Some(p) => if p < 1 {
            1
        } else {
            p
        },
        None => 1,
    };
    let asked: i32 = match limit {
        Some(l) => l,
        None => default_limit,
    };
    let l: i32 = if asked < 1 {
        1
    } else if asked > MAX_PAGE_SIZE {
        MAX_PAGE_SIZE
    } else {
        asked
    };
    let a: i64 = (p as i64) - 1;
    let b: i64 = l as i64;
    assert(0 <= a * b <= 100 * 2147483647) by (nonlinear_arith)
        requires
            0 <= a < 2147483647,
            1 <= b <= 100,
    ;
    Pagination { page: p, limit: l, offset: a * b }
}

/// A listing: the page of rows, the count of all matching rows (same
/// predicates and values, no paging), and the paging used.
pub struct ListingQuery {
    pub rows: SqlQuery,
    pub count: SqlQuery,
    pub pagination: Pagination,
}

/// An optional text value.
pub open spec fn opt_text(value: Option<&str>) -> Option<Seq<char>> {
    match value {
        Some(s) => Some(s@),
        None => None,
    }
}

/// A search term wrapped in wildcards; the term stays a bound value.
pub open spec fn wildcard(term: Seq<char>) -> Seq<char> {
    "%"@ + term + "%"@
}

/// The public product predicates: by category slug, by a term in the name or
/// the description.
pub open spec fn product_filters(q: QueryView, category: Option<Seq<char>>, search: Option<Seq<char>>) -> QueryView {
    let q1 = match category {
        Some(c) => then_sql(
            then_param(
                then_sql(q, " AND category_id = (SELECT id FROM categories WHERE slug = "@),
                ParamView::Text(c),
            ),
            ")"@,
        ),
        None => q,
    };
    match search {
        Some(t) => then_sql(
            then_param(
                then_sql(
                    then_param(then_sql(q1, " AND (name ILIKE "@), ParamView::Text(wildcard(t))),
                    " OR description ILIKE "@,
                ),
                ParamView::Text(wildcard(t)),
            ),
            ")"@,
        ),
        None => q1,
    }
}

/// Most recent first, then the page: both bounds are bound values.
pub open spec fn paged(q: QueryView, p: Pagination) -> QueryView {
    then_param(
        then_sql(
            then_param(then_sql(q, " ORDER BY created_at DESC LIMIT "@), ParamView::Int(p.limit as i64)),
            " OFFSET "@,
        ),
        ParamView::Int(p.offset),
    )
}

fn wildcard_exec(term: &str) -> (r: String)
    ensures
        r@ == wildcard(term@),
{
    let mut w = String::from_str("%");
    w.append(term);
    w.append("%");
    w
}

fn add_product_filters(q: &mut SqlQuery, category: Option<&str>, search: Option<&str>)
    requires
        old(q).wf(),
        old(q)@.1.len() < 4,
    ensures
        final(q).wf(),
        final(q)@ == product_filters(old(q)@, opt_text(category), opt_text(search)),
        final(q)@.1.len() <= old(q)@.1.len() + 3,
{
    proof {
        reveal_strlit(" AND category_id = (SELECT id FROM categories WHERE slug = ");
        reveal_strlit(")");
        reveal_strlit(" AND (name ILIKE ");
        reveal_strlit(" OR description ILIKE ");
    }
    match category {
        Some(c) => {
            q.push_sql(" AND category_id = (SELECT id FROM categories WHERE slug = ");
            q.push_param(SqlParam::Text(String::from_str(c)));
            q.push_sql(")");
        },
        None => {},
    }
    match search {
        Some(t) => {
            q.push_sql(" AND (name ILIKE ");
            q.push_param(SqlParam::Text(wildcard_exec(t)));
            q.push_sql(" OR description ILIKE ");
            q.push_param(SqlParam::Text(wildcard_exec(t)));
            q.push_sql(")");
        },
        None => {},
    }
}

fn add_paging(q: &mut SqlQuery, p: Pagination)
    requires
        old(q).wf(),
        old(q)@.1.len() < 8,
    ensures
        final(q).wf(),
        final(q)@ == paged(old(q)@, p),
{
    proof {
        reveal_strlit(" ORDER BY created_at DESC LIMIT ");
        reveal_strlit(" OFFSET ");
    }
    q.push_sql(" ORDER BY created_at DESC LIMIT ");
    q.push_param(SqlParam::Int(p.limit as i64));
    q.push_sql(" OFFSET ");
    q.push_param(SqlParam::Int(p.offset));
}

/// The public product listing over already sanitized filter values: active
/// products only, the optional predicates, most recent first, one page.
pub fn product_listing(
    category: Option<&str>,
    search: Option<&str>,
    page: Option<i32>,
    limit: Option<i32>,
) -> (r: ListingQuery)
    ensures
        r.pagination == spec_paginate(page, limit, PUBLIC_PAGE_SIZE),
        r.rows.wf(),
        r.rows@ == paged(
            product_filters(
                start("SELECT * FROM products WHERE is_active = true"@),
                opt_text(category),
                opt_text(search),
            ),
            r.pagination,
        ),
        r.count.wf(),
        r.count@ == product_filters(
            start("SELECT COUNT(*) FROM products WHERE is_active = true"@),
            opt_text(category),
            opt_text(search),
        ),
{
    proof {
        reveal_strlit("SELECT * FROM products WHERE is_active = true");
        reveal_strlit("SELECT COUNT(*) FROM products WHERE is_active = true");
    }
    let pagination = paginate(page, limit, PUBLIC_PAGE_SIZE);
    let mut rows = SqlQuery::new("SELECT * FROM products WHERE is_active = true");
    add_product_filters(&mut rows, category, search);
    add_paging(&mut rows, pagination);
    let mut count = SqlQuery::new("SELECT COUNT(*) FROM products WHERE is_active = true");
    add_product_filters(&mut count, category, search);
    ListingQuery { rows, count, pagination }
}

/// The public product listing for a request: its filter values are
/// sanitized, then bound as values.
pub fn build_product_listing(q: &ProductQuery) -> (r: ListingQuery)
    ensures
        r.pagination == spec_paginate(q.page, q.limit, PUBLIC_PAGE_SIZE),
        r.rows.wf(),
        r.rows@ == paged(
            product_filters(
                start("SELECT * FROM products WHERE is_active = true"@),
                sanitized_opt(q.category),
                sanitized_opt(q.search),
            ),
            r.pagination,
        ),
        r.count.wf(),
        r.count@ == product_filters(
            start("SELECT COUNT(*) FROM products WHERE is_active = true"@),
            sanitized_opt(q.category),
            sanitized_opt(q.search),
        ),
{
    let category = sanitize_opt(&q.category);
    let search = sanitize_opt(&q.search);
    let c = match &category {
        Some(c) => Some(c.as_str()),
        None => None,
    };
    let t = match &search {
        Some(t) => Some(t.as_str()),
        None => None,
    };
    product_listing(c, t, q.page, q.limit)
}

/// The administrator predicate: by active flag.
pub open spec fn active_filter(q: QueryView, active: Option<bool>) -> QueryView {
    match active {
        Some(a) => then_param(then_sql(q, " WHERE is_active = "@), ParamView::Bool(a)),
        None => q,
    }
}

/// The administrator product listing: every product, optionally by active
/// flag, most recent first, one page.
pub fn build_admin_product_listing(q: &AdminProductQuery) -> (r: ListingQuery)
    ensures
        r.pagination == spec_paginate(q.page, q.limit, ADMIN_PAGE_SIZE),
        r.rows.wf(),
        r.rows@ == paged(active_filter(start("SELECT * FROM products"@), q.active), r.pagination),
        r.count.wf(),
        r.count@ == active_filter(start("SELECT COUNT(*) FROM products"@), q.active),
{
    proof {
        reveal_strlit("SELECT * FROM products");
        reveal_strlit("SELECT COUNT(*) FROM products");
        reveal_strlit(" WHERE is_active = ");
    }
    let pagination = paginate(q.page, q.limit, ADMIN_PAGE_SIZE);
    let mut rows = SqlQuery::new("SELECT * FROM products");
    let mut count = SqlQuery::new("SELECT COUNT(*) FROM products");
    match q.active {
        Some(a) => {
            rows.push_sql(" WHERE is_active = ");
            rows.push_param(SqlParam::Bool(a));
            count.push_sql(" WHERE is_active = ");
            count.push_param(SqlParam::Bool(a));
        },
        None => {},
    }
    add_paging(&mut rows, pagination);
    ListingQuery { rows, count, pagination }
}

/// The quote predicate: by status.
pub open spec fn status_filter(q: QueryView, status: Option<Seq<char>>) -> QueryView {
    match status {
        Some(s) => then_param(then_sql(q, " WHERE status = "@), ParamView::Text(s)),
        None => q,
    }
}

/// The quote listing: optionally by status (sanitized, then bound), most
/// recent first, one page.
pub fn build_quote_listing(q: &QuoteQuery) -> (r: ListingQuery)
    ensures
        r.pagination == spec_paginate(q.page, q.limit, ADMIN_PAGE_SIZE),
        r.rows.wf(),
        r.rows@ == paged(
            status_filter(start("SELECT * FROM quotes"@), sanitized_opt(q.status)),
            r.pagination,
        ),
        r.count.wf(),
        r.count@ == status_filter(start("SELECT COUNT(*) FROM quotes"@), sanitized_opt(q.status)),
{
    proof {
        reveal_strlit("SELECT * FROM quotes");
        reveal_strlit("SELECT COUNT(*) FROM quotes");
        reveal_strlit(" WHERE status = ");
    }
    let pagination = paginate(q.page, q.limit, ADMIN_PAGE_SIZE);
    let mut rows = SqlQuery::new("SELECT * FROM quotes");
    let mut count = SqlQuery::new("SELECT COUNT(*) FROM quotes");
    match &q.status {
        Some(s) => {
            let clean = sanitize_text(s.as_str());
            rows.push_sql(" WHERE status = ");
            rows.push_param(SqlParam::Text(clean.clone()));
            count.push_sql(" WHERE status = ");
            count.push_param(SqlParam::Text(clean));
        },
        None => {},
    }
    add_paging(&mut rows, pagination);
    ListingQuery { rows, count, pagination }
}

/// A query shape whose pieces are clean, with one more piece than values.
pub open spec fn is_wf_shape(q: QueryView) -> bool {
    &&& q.0.len() == q.1.len() + 1
    &&& forall|i: int| 0 <= i < q.0.len() ==> is_clean_piece(#[trigger] q.0[i])
}

proof fn lemma_start_wf(lit: Seq<char>)
    requires
        is_clean_piece(lit),
    ensures
        is_wf_shape(start(lit)),
{
    let q = start(lit);
    assert(q.0[0] == lit);
}

proof fn lemma_then_sql_wf(q: QueryView, lit: Seq<char>)
    requires
        is_wf_shape(q),
        is_clean_piece(lit),
    ensures
        is_wf_shape(then_sql(q, lit)),
        then_sql(q, lit).1 == q.1,
{
    let n = q.0.len();
    let p = then_sql(q, lit).0;
    assert forall|i: int| 0 <= i < p.len() implies is_clean_piece(#[trigger] p[i]) by {
        if i == n - 1 {
            let a = q.0.last();
            assert(is_clean_piece(q.0[n - 1]));
            assert forall|j: int| 0 <= j < p[i].len() implies #[trigger] p[i][j] != '$' by {
                if j < a.len() {
                    assert(p[i][j] == a[j]);
                } else {
                    assert(p[i][j] == lit[j - a.len()]);
                }
            }
            if a.len() > 0 {
                assert(p[i][0] == a[0]);
            } else if lit.len() > 0 {
                assert(p[i][0] == lit[0]);
            }
        } else {
            assert(p[i] == q.0[i]);
        }
    }
}

proof fn lemma_then_param_wf(q: QueryView, v: ParamView)
    requires
        is_wf_shape(q),
    ensures
        is_wf_shape(then_param(q, v)),
        then_param(q, v).1 == q.1.push(v),
{
    let p = then_param(q, v).0;
    assert forall|i: int| 0 <= i < p.len() implies is_clean_piece(#[trigger] p[i]) by {
        if i < q.0.len() {
            assert(p[i] == q.0[i]);
        }
    }
}

proof fn lemma_product_filters_wf(q: QueryView, category: Option<Seq<char>>, search: Option<Seq<char>>)
    requires
        is_wf_shape(q),
    ensures
        is_wf_shape(product_filters(q, category, search)),
{
    reveal_strlit(" AND category_id = (SELECT id FROM categories WHERE slug = ");
    reveal_strlit(")");
    reveal_strlit(" AND (name ILIKE ");
    reveal_strlit(" OR description ILIKE ");
    let q1 = match category {
        Some(c) => {
            let a = then_sql(q, " AND category_id = (SELECT id FROM categories WHERE slug = "@);
            lemma_then_sql_wf(q, " AND category_id = (SELECT id FROM categories WHERE slug = "@);
            lemma_then_param_wf(a, ParamView::Text(c));
            lemma_then_sql_wf(then_param(a, ParamView::Text(c)), ")"@);
            then_sql(then_param(a, ParamView::Text(c)), ")"@)
        },
        None => q,
    };
    match search {
        Some(t) => {
            let a = then_sql(q1, " AND (name ILIKE "@);
            lemma_then_sql_wf(q1, " AND (name ILIKE "@);
            let b = then_param(a, ParamView::Text(wildcard(t)));
            lemma_then_param_wf(a, ParamView::Text(wildcard(t)));
            let c = then_sql(b, " OR description ILIKE "@);
            lemma_then_sql_wf(b, " OR description ILIKE "@);
            let d = then_param(c, ParamView::Text(wildcard(t)));
            lemma_then_param_wf(c, ParamView::Text(wildcard(t)));
            lemma_then_sql_wf(d, ")"@);
        },
        None => {},
    }
}

proof fn lemma_paged_wf(q: QueryView, p: Pagination)
    requires
        is_wf_shape(q),
    ensures
        is_wf_shape(paged(q, p)),
        paged(q, p).1 == q.1 + seq![ParamView::Int(p.limit as i64), ParamView::Int(p.offset)],
{
    reveal_strlit(" ORDER BY created_at DESC LIMIT ");
    reveal_strlit(" OFFSET ");
    let a = then_sql(q, " ORDER BY created_at DESC LIMIT "@);
    lemma_then_sql_wf(q, " ORDER BY created_at DESC LIMIT "@);
    let b = then_param(a, ParamView::Int(p.limit as i64));
    lemma_then_param_wf(a, ParamView::Int(p.limit as i64));
    let c = then_sql(b, " OFFSET "@);
    lemma_then_sql_wf(b, " OFFSET "@);
    lemma_then_param_wf(c, ParamView::Int(p.offset));
    assert(paged(q, p).1 =~= q.1 + seq![ParamView::Int(p.limit as i64), ParamView::Int(p.offset)]);
}

proof fn lemma_shape_count(q: QueryView)
    requires
        is_wf_shape(q),
    ensures
        dollar_count(with_placeholders(q.0)) == q.1.len(),
{
    lemma_pieces_count(q.0);
}

/// For any filter values, page and page size, the public product listing
/// holds exactly one placeholder per bound value in its row query and in its
/// count query, the row query binds the count query's values and then the
/// page size and offset, the page is at least 1 and the page size within
/// `[1, 100]`.
pub proof fn lemma_product_listing_parameterized(
    category: Option<Seq<char>>,
    search: Option<Seq<char>>,
    page: Option<i32>,
    limit: Option<i32>,
)
    ensures
        ({
            let p = spec_paginate(page, limit, PUBLIC_PAGE_SIZE);
            let rows = paged(
                product_filters(start("SELECT * FROM products WHERE is_active = true"@), category, search),
                p,
            );
            let count = product_filters(
                start("SELECT COUNT(*) FROM products WHERE is_active = true"@),
                category,
                search,
            );
            &&& dollar_count(with_placeholders(rows.0)) == rows.1.len()
            &&& dollar_count(with_placeholders(count.0)) == count.1.len()
            &&& rows.1 == count.1 + seq![ParamView::Int(p.limit as i64), ParamView::Int(p.offset)]
            &&& p.page >= 1
            &&& 1 <= p.limit <= MAX_PAGE_SIZE
        }),
{
    reveal_strlit("SELECT * FROM products WHERE is_active = true");
    reveal_strlit("SELECT COUNT(*) FROM products WHERE is_active = true");
    let p = spec_paginate(page, limit, PUBLIC_PAGE_SIZE);
    let base = start("SELECT * FROM products WHERE is_active = true"@);
    let cbase = start("SELECT COUNT(*) FROM products WHERE is_active = true"@);
    lemma_start_wf("SELECT * FROM products WHERE is_active = true"@);
    lemma_start_wf("SELECT COUNT(*) FROM products WHERE is_active = true"@);
    lemma_product_filters_wf(base, category, search);
    lemma_product_filters_wf(cbase, category, search);
    let f = product_filters(base, category, search);
    lemma_paged_wf(f, p);
    lemma_shape_count(paged(f, p));
    lemma_shape_count(product_filters(cbase, category, search));
    assert(f.1 == product_filters(cbase, category, search).1);
}

/// For any status filter, active flag, page and page size, the quote and
/// administrator product listings hold exactly one placeholder per bound
/// value in their row and count queries, the row query binding the count
/// query's values and then the page size and offset.
pub proof fn lemma_admin_listings_parameterized(
    status: Option<Seq<char>>,
    active: Option<bool>,
    page: Option<i32>,
    limit: Option<i32>,
)
    ensures
        ({
            let p = spec_paginate(page, limit, ADMIN_PAGE_SIZE);
            let quotes = paged(status_filter(start("SELECT * FROM quotes"@), status), p);
            let quote_count = status_filter(start("SELECT COUNT(*) FROM quotes"@), status);
            let products = paged(active_filter(start("SELECT * FROM products"@), active), p);
            let product_count = active_filter(start("SELECT COUNT(*) FROM products"@), active);
            &&& dollar_count(with_placeholders(quotes.0)) == quotes.1.len()
            &&& dollar_count(with_placeholders(quote_count.0)) == quote_count.1.len()
            &&& quotes.1 == quote_count.1 + seq![ParamView::Int(p.limit as i64), ParamView::Int(p.offset)]
            &&& dollar_count(with_placeholders(products.0)) == products.1.len()
            &&& dollar_count(with_placeholders(product_count.0)) == product_count.1.len()
            &&& products.1 == product_count.1 + seq![
                ParamView::Int(p.limit as i64),
                ParamView::Int(p.offset),
            ]
        }),
{
    reveal_strlit("SELECT * FROM quotes");
    reveal_strlit("SELECT COUNT(*) FROM quotes");
    reveal_strlit("SELECT * FROM products");
    reveal_strlit("SELECT COUNT(*) FROM products");
    reveal_strlit(" WHERE status = ");
    reveal_strlit(" WHERE is_active = ");
    let p = spec_paginate(page, limit, ADMIN_PAGE_SIZE);
    let bases = seq![
        "SELECT * FROM quotes"@,
        "SELECT COUNT(*) FROM quotes"@,
        "SELECT * FROM products"@,
        "SELECT COUNT(*) FROM products"@,
    ];
    lemma_start_wf(bases[0]);
    lemma_start_wf(bases[1]);
    lemma_start_wf(bases[2]);
    lemma_start_wf(bases[3]);
    let fq = status_filter(start(bases[0]), status);
    let fqc = status_filter(start(bases[1]), status);
    let fp = active_filter(start(bases[2]), active);
    let fpc = active_filter(start(bases[3]), active);
    match status {
        Some(v) => {
            lemma_then_sql_wf(start(bases[0]), " WHERE status = "@);
            lemma_then_param_wf(then_sql(start(bases[0]), " WHERE status = "@), ParamView::Text(v));
            lemma_then_sql_wf(start(bases[1]), " WHERE status = "@);
            lemma_then_param_wf(then_sql(start(bases[1]), " WHERE status = "@), ParamView::Text(v));
        },
        None => {},
    }
    match active {
        Some(a) => {
            lemma_then_sql_wf(start(bases[2]), " WHERE is_active = "@);
            lemma_then_param_wf(then_sql(start(bases[2]), " WHERE is_active = "@), ParamView::Bool(a));
            lemma_then_sql_wf(start(bases[3]), " WHERE is_active = "@);
            lemma_then_param_wf(then_sql(start(bases[3]), " WHERE is_active = "@), ParamView::Bool(a));
        },
        None => {},
    }
    lemma_paged_wf(fq, p);
    lemma_paged_wf(fp, p);
    lemma_shape_count(paged(fq, p));
    lemma_shape_count(fqc);
    lemma_shape_count(paged(fp, p));
    lemma_shape_count(fpc);
}

} // verus!
