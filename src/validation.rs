use vstd::prelude::*;
use vstd::string::*;
use crate::error::{ApiError, ApiResult};
use crate::models::{CreateProductRequest, CreateQuoteRequest, LoginRequest};

verus! {

/// An ASCII decimal digit.
pub open spec fn is_ascii_digit(c: char) -> bool {
    '0' <= c && c <= '9'
}

/// The value of an ASCII decimal digit.
pub open spec fn digit_value(c: char) -> int {
    c as int - '0' as int
}

/// The checksum weight applied to position `i` (0 to 9) of a tax identifier.
pub open spec fn ruc_weight(i: int) -> int {
    if i == 0 || i == 6 {
        5
    } else if i == 1 || i == 7 {
        4
    } else if i == 2 || i == 8 {
        3
    } else if i == 3 || i == 9 {
        2
    } else if i == 4 {
        7
    } else {
        6
    }
}

/// Sum of the first `n` digits of `s`, each multiplied by its weight.
pub open spec fn ruc_weighted_sum(s: Seq<char>, n: int) -> int
    decreases n,
{
    if n <= 0 {
        0
    } else {
        ruc_weighted_sum(s, n - 1) + digit_value(s[n - 1]) * ruc_weight(n - 1)
    }
}

/// The check digit that a weighted sum calls for.
pub open spec fn ruc_check_digit(sum: int) -> int {
    let r = 11 - sum % 11;
    if r == 10 {
        0
    } else if r == 11 {
        1
    } else {
        r
    }
}

/// The registrant-category prefixes that a tax identifier may start with.
pub open spec fn is_allowed_ruc_prefix(p: int) -> bool {
    p == 10 || p == 15 || p == 17 || p == 20
}

/// A valid tax identifier: eleven ASCII digits, an allowed two-digit prefix,
/// and a last digit equal to the check digit of the first ten.
pub open spec fn is_valid_ruc(s: Seq<char>) -> bool {
    &&& s.len() == 11
    &&& forall|i: int| 0 <= i < 11 ==> is_ascii_digit(#[trigger] s[i])
    &&& is_allowed_ruc_prefix(digit_value(s[0]) * 10 + digit_value(s[1]))
    &&& ruc_check_digit(ruc_weighted_sum(s, 10)) == digit_value(s[10])
}

fn ruc_weight_exec(i: usize) -> (w: u32)
    requires
        i < 10,
    ensures
        w as int == ruc_weight(i as int),
        1 <= w <= 7,
{
    if i == 0 || i == 6 {
        5
    } else if i == 1 || i == 7 {
        4
    } else if i == 2 || i == 8 {
        3
    } else if i == 3 || i == 9 {
        2
    } else if i == 4 {
        7
    } else {
        6
    }
}

/// Validates a tax identifier (RUC): eleven ASCII digits, an allowed prefix
/// (10, 15, 17 or 20) and a correct modulo-11 check digit.
pub fn validate_ruc(ruc: &str) -> (r: bool)
    ensures
        r == is_valid_ruc(ruc@),
{
    let n = ruc.unicode_len();
    if n != 11 {
        return false;
    }
    let mut digits: Vec<u32> = Vec::new();
    let mut i: usize = 0;
    while i < 11
        invariant
            n == 11,
            ruc@.len() == 11,
            i <= 11,
            digits@.len() == i,
            forall|j: int| 0 <= j < i ==> is_ascii_digit(#[trigger] ruc@[j]),
            forall|j: int| 0 <= j < i ==> digits@[j] as int == digit_value(#[trigger] ruc@[j]),
            forall|j: int| 0 <= j < i ==> #[trigger] digits@[j] <= 9,
        decreases 11 - i,
    {
        let c = ruc.get_char(i);
        if !('0' <= c && c <= '9') {
            return false;
        }
        digits.push((c as u32) - ('0' as u32));
        i = i + 1;
    }
    let prefix = digits[0] * 10 + digits[1];
    if !(prefix == 10 || prefix == 15 || prefix == 17 || prefix == 20) {
        return false;
    }
    let mut sum: u32 = 0;
    let mut k: usize = 0;
    while k < 10
        invariant
            ruc@.len() == 11,
            digits@.len() == 11,
            k <= 10,
            forall|j: int| 0 <= j < 11 ==> digits@[j] as int == digit_value(#[trigger] ruc@[j]),
            forall|j: int| 0 <= j < 11 ==> 0 <= #[trigger] digits@[j] <= 9,
            sum as int == ruc_weighted_sum(ruc@, k as int),
            sum <= 63 * k,
        decreases 10 - k,
    {
        let d = digits[k];
        let w = ruc_weight_exec(k);
        assert(d * w <= 63) by (nonlinear_arith)
            requires
                d <= 9,
                w <= 7,
        ;
        sum = sum + d * w;
        k = k + 1;
    }
    let remainder = 11 - sum % 11;
    let check = if remainder == 10 {
        0
    } else if remainder == 11 {
        1
    } else {
        remainder
    };
    check == digits[10]
}

/// The weighted sum reads only the first `n` characters.
proof fn lemma_weighted_sum_prefix(s: Seq<char>, t: Seq<char>, n: int)
    requires
        0 <= n <= s.len(),
        n <= t.len(),
        forall|i: int| 0 <= i < n ==> s[i] == t[i],
    ensures
        ruc_weighted_sum(s, n) == ruc_weighted_sum(t, n),
    decreases n,
{
    if n > 0 {
        lemma_weighted_sum_prefix(s, t, n - 1);
    }
}

/// Changing the digit at position `k` moves the weighted sum by that
/// position's weight times the change.
proof fn lemma_weighted_sum_change(s: Seq<char>, t: Seq<char>, k: int, n: int)
    requires
        0 <= k < n <= s.len(),
        n <= t.len(),
        forall|i: int| 0 <= i < n && i != k ==> s[i] == t[i],
    ensures
        ruc_weighted_sum(t, n) == ruc_weighted_sum(s, n) + ruc_weight(k) * (digit_value(t[k])
            - digit_value(s[k])),
    decreases n,
{
    if n == k + 1 {
        lemma_weighted_sum_prefix(s, t, k);
        assert(digit_value(t[k]) * ruc_weight(k) == digit_value(s[k]) * ruc_weight(k) + ruc_weight(k)
            * (digit_value(t[k]) - digit_value(s[k]))) by (nonlinear_arith);
    } else {
        lemma_weighted_sum_change(s, t, k, n - 1);
    }
}

/// A change of one digit by a nonzero amount under a weight from 2 to 7
/// changes the remainder modulo 11, since 11 is prime.
proof fn lemma_weighted_change_moves_remainder(a: int, w: int, d: int)
    requires
        2 <= w <= 7,
        -9 <= d <= 9,
        d != 0,
    ensures
        (a + w * d) % 11 != a % 11,
{
    if w == 2 {
        assert((a + 2 * d) % 11 != a % 11);
    } else if w == 3 {
        assert((a + 3 * d) % 11 != a % 11);
    } else if w == 4 {
        assert((a + 4 * d) % 11 != a % 11);
    } else if w == 5 {
        assert((a + 5 * d) % 11 != a % 11);
    } else if w == 6 {
        assert((a + 6 * d) % 11 != a % 11);
    } else {
        assert((a + 7 * d) % 11 != a % 11);
    }
}

/// Changing one of the first ten digits of a valid tax identifier to another
/// digit makes it invalid, when its check digit is not 1. (Check digit 1
/// stands for two remainders, so there a change can go unnoticed:
/// `20000000001` and `20400000001` are both valid.)
pub proof fn lemma_one_digit_change_fails(s: Seq<char>, t: Seq<char>, k: int)
    requires
        is_valid_ruc(s),
        s[10] != '1',
        0 <= k < 10,
        t.len() == 11,
        forall|i: int| 0 <= i < 11 && i != k ==> s[i] == t[i],
        is_ascii_digit(t[k]),
        t[k] != s[k],
    ensures
        !is_valid_ruc(t),
{
    lemma_weighted_sum_change(s, t, k, 10);
    let a = ruc_weighted_sum(s, 10);
    let d = digit_value(t[k]) - digit_value(s[k]);
    assert(is_ascii_digit(s[k]));
    lemma_weighted_change_moves_remainder(a, ruc_weight(k), d);
    assert(s[10] == t[10]);
}

/// Changing only the check digit of a valid tax identifier makes it
/// invalid.
pub proof fn lemma_check_digit_change_fails(s: Seq<char>, t: Seq<char>)
    requires
        is_valid_ruc(s),
        t.len() == 11,
        forall|i: int| 0 <= i < 10 ==> s[i] == t[i],
        t[10] != s[10],
    ensures
        !is_valid_ruc(t),
{
    lemma_weighted_sum_prefix(s, t, 10);
    assert(s[0] == t[0] && s[1] == t[1]);
}

} // verus!

verus! {

/// What ammonia's default policy makes of a text: script-capable markup
/// removed, plain text kept.
pub uninterp spec fn sanitized(text: Seq<char>) -> Seq<char>;

/// An optional text, sanitized when present.
pub open spec fn sanitized_opt(value: Option<String>) -> Option<Seq<char>> {
    match value {
        Some(s) => Some(sanitized(s@)),
        None => None,
    }
}

/// Sanitizes an optional text.
pub fn sanitize_opt(value: &Option<String>) -> (r: Option<String>)
    ensures
        r.deep_view() == sanitized_opt(*value),
{
    match value {
        Some(s) => Some(sanitize_text(s.as_str())),
        None => None,
    }
}

/// The text has the shape of an email address, as the validator crate
/// judges it.
pub uninterp spec fn email_shape(text: Seq<char>) -> bool;

/// The text parses as an absolute URL, as the validator crate judges it.
pub uninterp spec fn url_shape(text: Seq<char>) -> bool;

/// Strips unsafe markup from user-supplied text. Relies on `ammonia::clean`
/// with its default policy.
#[verifier::external_body]
pub fn sanitize_text(input: &str) -> (r: String)
    ensures
        r@ == sanitized(input@),
{
    ammonia::clean(input)
}

/// Relies on the validator crate's `ValidateEmail::validate_email`.
#[verifier::external_body]
fn email_is_valid(text: &str) -> (r: bool)
    ensures
        r == email_shape(text@),
{
    validator::ValidateEmail::validate_email(&text)
}

/// Relies on the validator crate's `ValidateUrl::validate_url` (a parse by
/// the url crate).
#[verifier::external_body]
fn url_is_valid(text: &str) -> (r: bool)
    ensures
        r == url_shape(text@),
{
    validator::ValidateUrl::validate_url(&text)
}

/// One broken rule of a request: the field, the rule and a message.
#[derive(Debug, Clone, PartialEq, Eq)]
pub struct Violation {
    pub field: String,
    pub rule: String,
    pub message: String,
}

pub type ViolationView = (Seq<char>, Seq<char>, Seq<char>);

impl View for Violation {
    type V = ViolationView;

    open spec fn view(&self) -> ViolationView {
        (self.field@, self.rule@, self.message@)
    }
}

pub open spec fn views(v: Seq<Violation>) -> Seq<ViolationView> {
    v.map_values(|x: Violation| x@)
}

/// The rules that a request field can break.
#[derive(Debug, Clone, Copy, PartialEq, Eq, Structural)]
pub enum Rule {
    Length,
    Email,
    Url,
    Range,
}

impl Rule {
    pub open spec fn spec_name(self) -> Seq<char> {
        match self {
            Rule::Length => "length"@,
            Rule::Email => "email"@,
            Rule::Url => "url"@,
            Rule::Range => "range"@,
        }
    }

    pub open spec fn spec_message(self) -> Seq<char> {
        match self {
            Rule::Length => "longitud fuera de rango"@,
            Rule::Email => "email invalido"@,
            Rule::Url => "url invalida"@,
            Rule::Range => "valor fuera de rango"@,
        }
    }

    pub fn name(self) -> (r: &'static str)
        ensures
            r@ == self.spec_name(),
    {
        match self {
            Rule::Length => "length",
            Rule::Email => "email",
            Rule::Url => "url",
            Rule::Range => "range",
        }
    }

    pub fn message(self) -> (r: &'static str)
        ensures
            r@ == self.spec_message(),
    {
        match self {
            Rule::Length => "longitud fuera de rango",
            Rule::Email => "email invalido",
            Rule::Url => "url invalida",
            Rule::Range => "valor fuera de rango",
        }
    }
}

pub open spec fn violation(field: Seq<char>, rule: Rule) -> ViolationView {
    (field, rule.spec_name(), rule.spec_message())
}

/// A length rule (in characters), inclusive bounds; `max` may be absent.
pub open spec fn length_violations(field: Seq<char>, len: int, min: int, max: Option<int>) -> Seq<
    ViolationView,
> {
    if len < min || (max is Some && len > max->0) {
        seq![violation(field, Rule::Length)]
    } else {
        seq![]
    }
}

/// A length rule on an optional field: an absent value passes.
pub open spec fn opt_length_violations(
    field: Seq<char>,
    value: Option<String>,
    min: int,
    max: Option<int>,
) -> Seq<ViolationView> {
    match value {
        Some(s) => length_violations(field, s@.len() as int, min, max),
        None => seq![],
    }
}

pub open spec fn email_violations(field: Seq<char>, value: Seq<char>) -> Seq<ViolationView> {
    if email_shape(value) {
        seq![]
    } else {
        seq![violation(field, Rule::Email)]
    }
}

pub open spec fn opt_url_violations(field: Seq<char>, value: Option<String>) -> Seq<ViolationView> {
    match value {
        Some(s) => if url_shape(s@) {
            seq![]
        } else {
            seq![violation(field, Rule::Url)]
        },
        None => seq![],
    }
}

pub open spec fn opt_range_violations(field: Seq<char>, value: Option<i32>, min: int, max: int) -> Seq<
    ViolationView,
> {
    match value {
        Some(v) => if v < min || v > max {
            seq![violation(field, Rule::Range)]
        } else {
            seq![]
        },
        None => seq![],
    }
}

fn push_violation(out: &mut Vec<Violation>, field: &str, rule: Rule)
    ensures
        views(final(out)@) == views(old(out)@).push(violation(field@, rule)),
{
    let v = Violation {
        field: String::from_str(field),
        rule: String::from_str(rule.name()),
        message: String::from_str(rule.message()),
    };
    out.push(v);
    proof {
        assert(views(final(out)@) =~= views(old(out)@).push(violation(field@, rule)));
    }
}

fn check_length(out: &mut Vec<Violation>, field: &str, len: usize, min: usize, max: Option<usize>)
    ensures
        views(final(out)@) == views(old(out)@) + length_violations(
            field@,
            len as int,
            min as int,
            match max {
                Some(m) => Some(m as int),
                None => None,
            },
        ),
{
    let too_long = match max {
        Some(m) => len > m,
        None => false,
    };
    if len < min || too_long {
        push_violation(out, field, Rule::Length);
    } else {
        assert(views(old(out)@) + seq![] =~= views(old(out)@));
    }
}
fn check_opt_length(
    out: &mut Vec<Violation>,
    field: &str,
    value: &Option<String>,
    min: usize,
    max: Option<usize>,
)
    ensures
        views(final(out)@) == views(old(out)@) + opt_length_violations(
            field@,
            *value,
            min as int,
            match max {
                Some(m) => Some(m as int),
                None => None,
            },
        ),
{
    match value {
        Some(s) => check_length(out, field, s.as_str().unicode_len(), min, max),
        None => {
            assert(views(old(out)@) + seq![] =~= views(old(out)@));
        },
    }
}

fn check_email(out: &mut Vec<Violation>, field: &str, value: &str)
    ensures
        views(final(out)@) == views(old(out)@) + email_violations(field@, value@),
{
    if email_is_valid(value) {
        assert(views(old(out)@) + seq![] =~= views(old(out)@));
    } else {
        push_violation(out, field, Rule::Email);
    }
}

fn check_opt_url(out: &mut Vec<Violation>, field: &str, value: &Option<String>)
    ensures
        views(final(out)@) == views(old(out)@) + opt_url_violations(field@, *value),
{
    match value {
        Some(s) => {
            if url_is_valid(s.as_str()) {
                assert(views(old(out)@) + seq![] =~= views(old(out)@));
            } else {
                push_violation(out, field, Rule::Url);
            }
        },
        None => {
            assert(views(old(out)@) + seq![] =~= views(old(out)@));
        },
    }
}

fn check_opt_range(out: &mut Vec<Violation>, field: &str, value: Option<i32>, min: i32, max: i32)
    ensures
        views(final(out)@) == views(old(out)@) + opt_range_violations(
            field@,
            value,
            min as int,
            max as int,
        ),
{
    match value {
        Some(v) => {
            if v < min || v > max {
                push_violation(out, field, Rule::Range);
            } else {
                assert(views(old(out)@) + seq![] =~= views(old(out)@));
            }
        },
        None => {
            assert(views(old(out)@) + seq![] =~= views(old(out)@));
        },
    }
}

/// The rules of a login request, in field order.
pub open spec fn login_rules(req: LoginRequest) -> Seq<ViolationView> {
    email_violations("email"@, req.email@) + length_violations(
        "password"@,
        req.password@.len() as int,
        6,
        None,
    )
}

/// The rules of a quote request, in field order.
pub open spec fn quote_rules(req: CreateQuoteRequest) -> Seq<ViolationView> {
    length_violations("company_name"@, req.company_name@.len() as int, 2, Some(255))
        + length_violations("company_tax_id"@, req.company_tax_id@.len() as int, 11, Some(11))
        + length_violations("contact_name"@, req.contact_name@.len() as int, 2, Some(255))
        + email_violations("email"@, req.email@)
        + opt_length_violations("phone"@, req.phone, 0, Some(50))
        + length_violations("product_ids"@, req.product_ids@.len() as int, 1, None)
        + opt_length_violations("estimated_quantity"@, req.estimated_quantity, 0, Some(1000))
        + opt_length_violations("message"@, req.message, 0, Some(2000))
}

/// The rules of a product request, in field order.
pub open spec fn product_rules(req: CreateProductRequest) -> Seq<ViolationView> {
    length_violations("name"@, req.name@.len() as int, 2, Some(255))
        + length_violations("slug"@, req.slug@.len() as int, 2, Some(255))
        + opt_length_violations("description"@, req.description, 0, Some(5000))
        + length_violations("brand"@, req.brand@.len() as int, 1, Some(200))
        + opt_length_violations("model_number"@, req.model_number, 0, Some(200))
        + length_violations("origin_country"@, req.origin_country@.len() as int, 2, Some(100))
        + opt_range_violations("warranty_period"@, req.warranty_period, 0, 120)
        + opt_url_violations("technical_sheet_url"@, req.technical_sheet_url)
        + length_violations("registro_sanitario"@, req.registro_sanitario@.len() as int, 1, Some(100))
}

/// Every rule of a login request that it breaks, all of them, in field order.
pub fn login_violations(req: &LoginRequest) -> (r: Vec<Violation>)
    ensures
        views(r@) == login_rules(*req),
{
    let mut out: Vec<Violation> = Vec::new();
    proof {
        assert(views(out@) =~= seq![]);
    }
    check_email(&mut out, "email", req.email.as_str());
    check_length(&mut out, "password", req.password.as_str().unicode_len(), 6, None);
    proof {
        assert(views(out@) =~= login_rules(*req));
    }
    out
}

/// Every rule of a quote request that it breaks, all of them, in field order.
pub fn quote_violations(req: &CreateQuoteRequest) -> (r: Vec<Violation>)
    ensures
        views(r@) == quote_rules(*req),
{
    let mut out: Vec<Violation> = Vec::new();
    proof {
        assert(views(out@) =~= seq![]);
    }
    check_length(&mut out, "company_name", req.company_name.as_str().unicode_len(), 2, Some(255));
    check_length(&mut out, "company_tax_id", req.company_tax_id.as_str().unicode_len(), 11, Some(11));
    check_length(&mut out, "contact_name", req.contact_name.as_str().unicode_len(), 2, Some(255));
    check_email(&mut out, "email", req.email.as_str());
    check_opt_length(&mut out, "phone", &req.phone, 0, Some(50));
    check_length(&mut out, "product_ids", req.product_ids.len(), 1, None);
    check_opt_length(&mut out, "estimated_quantity", &req.estimated_quantity, 0, Some(1000));
    check_opt_length(&mut out, "message", &req.message, 0, Some(2000));
    proof {
        assert(views(out@) =~= quote_rules(*req));
    }
    out
}

/// Every rule of a product request that it breaks, all of them, in field
/// order.
pub fn product_violations(req: &CreateProductRequest) -> (r: Vec<Violation>)
    ensures
        views(r@) == product_rules(*req),
{
    let mut out: Vec<Violation> = Vec::new();
    proof {
        assert(views(out@) =~= seq![]);
    }
    check_length(&mut out, "name", req.name.as_str().unicode_len(), 2, Some(255));
    check_length(&mut out, "slug", req.slug.as_str().unicode_len(), 2, Some(255));
    check_opt_length(&mut out, "description", &req.description, 0, Some(5000));
    check_length(&mut out, "brand", req.brand.as_str().unicode_len(), 1, Some(200));
    check_opt_length(&mut out, "model_number", &req.model_number, 0, Some(200));
    check_length(&mut out, "origin_country", req.origin_country.as_str().unicode_len(), 2, Some(100));
    check_opt_range(&mut out, "warranty_period", req.warranty_period, 0, 120);
    check_opt_url(&mut out, "technical_sheet_url", &req.technical_sheet_url);
    check_length(
        &mut out,
        "registro_sanitario",
        req.registro_sanitario.as_str().unicode_len(),
        1,
        Some(100),
    );
    proof {
        assert(views(out@) =~= product_rules(*req));
    }
    out
}

/// One violation as the caller reads it: `field: message`.
pub open spec fn render_violation(v: ViolationView) -> Seq<char> {
    v.0 + ": "@ + v.2
}

/// The violations as one text, separated by `; `.
pub open spec fn render_violations(s: Seq<ViolationView>) -> Seq<char>
    decreases s.len(),
{
    if s.len() == 0 {
        seq![]
    } else if s.len() == 1 {
        render_violation(s[0])
    } else {
        render_violations(s.drop_last()) + "; "@ + render_violation(s.last())
    }
}

/// Renders the violations as one text, separated by `; `.
pub fn render_violation_list(violations: &Vec<Violation>) -> (r: String)
    ensures
        r@ == render_violations(views(violations@)),
{
    let mut out = String::new();
    let mut i: usize = 0;
    while i < violations.len()
        invariant
            i <= violations@.len(),
            out@ == render_violations(views(violations@).take(i as int)),
        decreases violations@.len() - i,
    {
        let v = &violations[i];
        proof {
            let s = views(violations@);
            assert(s.take(i + 1).drop_last() =~= s.take(i as int));
            assert(s.take(i + 1).last() == v@);
            if i == 0 {
                assert(s.take(1) =~= seq![v@]);
            }
        }
        if i > 0 {
            out.append("; ");
        }
        out.append(v.field.as_str());
        out.append(": ");
        out.append(v.message.as_str());
        proof {
            reveal_strlit("; ");
            reveal_strlit(": ");
            let s = views(violations@);
            assert(out@ =~= render_violations(s.take(i + 1)));
        }
        i = i + 1;
    }
    proof {
        assert(views(violations@).take(violations@.len() as int) =~= views(violations@));
    }
    out
}

/// All-or-nothing: `Ok` when the list is empty, else one `Validation` error
/// whose detail lists every violation.
pub fn validation_outcome(violations: &Vec<Violation>) -> (r: ApiResult<()>)
    ensures
        r is Ok <==> violations@.len() == 0,
        r is Err ==> r->Err_0 == ApiError::Validation(r->Err_0->Validation_0)
            && r->Err_0->Validation_0@ == render_violations(views(violations@)),
{
    if violations.len() == 0 {
        Ok(())
    } else {
        Err(ApiError::Validation(render_violation_list(violations)))
    }
}

/// Validates a login request.
pub fn validate_login(req: &LoginRequest) -> (r: ApiResult<()>)
    ensures
        r is Ok <==> login_rules(*req).len() == 0,
        r is Err ==> r->Err_0 is Validation && r->Err_0->Validation_0@ == render_violations(
            login_rules(*req),
        ),
{
    let v = login_violations(req);
    validation_outcome(&v)
}

/// A request that breaks two independent rules gets both reported, in one
/// outcome: a too-short company name and a malformed email.
pub proof fn lemma_violations_are_aggregated(req: CreateQuoteRequest)
    requires
        req.company_name@.len() < 2,
        !email_shape(req.email@),
    ensures
        quote_rules(req).contains(violation("company_name"@, Rule::Length)),
        quote_rules(req).contains(violation("email"@, Rule::Email)),
        quote_rules(req).len() >= 2,
{
    let a = length_violations("company_name"@, req.company_name@.len() as int, 2, Some(255));
    let b = length_violations("company_tax_id"@, req.company_tax_id@.len() as int, 11, Some(11));
    let c = length_violations("contact_name"@, req.contact_name@.len() as int, 2, Some(255));
    let d = email_violations("email"@, req.email@);
    let rest = opt_length_violations("phone"@, req.phone, 0, Some(50))
        + length_violations("product_ids"@, req.product_ids@.len() as int, 1, None)
        + opt_length_violations("estimated_quantity"@, req.estimated_quantity, 0, Some(1000))
        + opt_length_violations("message"@, req.message, 0, Some(2000));
    let q = quote_rules(req);
    assert(q =~= a + b + c + d + rest);
    assert(q[0] == violation("company_name"@, Rule::Length));
    let k: int = 1 + b.len() as int + c.len() as int;
    assert(q[k] == violation("email"@, Rule::Email));
}

} // verus!
