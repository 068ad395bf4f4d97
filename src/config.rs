use vstd::prelude::*;
use vstd::string::*;
use crate::text::push_char;
use crate::validation::is_ascii_digit;

verus! {

/// Settings of the service.
#[derive(Debug, Clone, PartialEq, Eq)]
pub struct Config {
    pub database_url: String,
    pub port: u16,
    pub jwt_secret: String,
    pub aws_access_key_id: String,
    pub aws_secret_access_key: String,
    pub aws_region: String,
    pub aws_s3_bucket: String,
    pub email_api_key: String,
    pub email_from: String,
    pub email_to: String,
    pub cors_origin: Vec<String>,
}

/// The raw settings as found in the environment, each absent when unset.
#[derive(Debug, Clone, PartialEq, Eq)]
pub struct ConfigVars {
    pub database_url: Option<String>,
    pub port: Option<String>,
    pub jwt_secret: Option<String>,
    pub aws_access_key_id: Option<String>,
    pub aws_secret_access_key: Option<String>,
    pub aws_region: Option<String>,
    pub aws_s3_bucket: Option<String>,
    pub email_api_key: Option<String>,
    pub email_from: Option<String>,
    pub email_to: Option<String>,
    pub cors_origin: Option<String>,
}

/// White space as `char::is_whitespace` has it: the Unicode `White_Space`
/// characters.
pub open spec fn is_white_space(c: char) -> bool {
    ('\u{9}' <= c && c <= '\u{d}') || c == ' ' || c == '\u{85}' || c == '\u{a0}' || c
        == '\u{1680}' || ('\u{2000}' <= c && c <= '\u{200a}') || c == '\u{2028}' || c
        == '\u{2029}' || c == '\u{202f}' || c == '\u{205f}' || c == '\u{3000}'
}

/// The text without its leading white space.
pub open spec fn trim_start(s: Seq<char>) -> Seq<char>
    decreases s.len(),
{
    if s.len() > 0 && is_white_space(s[0]) {
        trim_start(s.drop_first())
    } else {
        s
    }
}

/// The text without its trailing white space.
pub open spec fn trim_end(s: Seq<char>) -> Seq<char>
    decreases s.len(),
{
    if s.len() > 0 && is_white_space(s.last()) {
        trim_end(s.drop_last())
    } else {
        s
    }
}

/// The text without its leading and trailing white space.
pub open spec fn trimmed(s: Seq<char>) -> Seq<char> {
    trim_end(trim_start(s))
}

/// Relies on `str::trim`, which removes the leading and trailing characters
/// for which `char::is_whitespace` holds.
#[verifier::external_body]
fn trim_text(s: &str) -> (r: String)
    ensures
        r@ == trimmed(s@),
{
    s.trim().to_string()
}

/// The value of a run of decimal digits.
pub open spec fn digits_value(s: Seq<char>) -> nat
    decreases s.len(),
{
    if s.len() == 0 {
        0
    } else {
        digits_value(s.drop_last()) * 10 + (s.last() as nat - '0' as nat) as nat
    }
}

/// The digits of a port number: the text without its leading `+`, if any.
pub open spec fn port_digits(s: Seq<char>) -> Seq<char> {
    if s.len() > 0 && s[0] == '+' {
        s.subrange(1, s.len() as int)
    } else {
        s
    }
}

/// A port number as written: an optional `+`, then one or more decimal
/// digits whose value fits in 16 bits.
pub open spec fn port_of(s: Seq<char>) -> Option<u16> {
    let d = port_digits(s);
    if d.len() > 0 && (forall|i: int| 0 <= i < d.len() ==> is_ascii_digit(#[trigger] d[i]))
        && digits_value(d) <= 65535 {
        Some(digits_value(d) as u16)
    } else {
        None
    }
}

/// Reads a port number: an optional `+` and decimal digits, at most 65535.
pub fn parse_port(s: &str) -> (r: Option<u16>)
    ensures
        r == port_of(s@),
{
    let n = s.unicode_len();
    let start: usize = if n > 0 && s.get_char(0) == '+' {
        1
    } else {
        0
    };
    let ghost d = s@.subrange(start as int, n as int);
    proof {
        if start == 0 {
            assert(d =~= s@);
        }
        assert(d == port_digits(s@));
    }
    if start >= n {
        return None;
    }
    let mut value: u32 = 0;
    let mut i: usize = start;
    while i < n
        invariant
            n == s@.len(),
            start <= i <= n,
            d == s@.subrange(start as int, n as int),
            d == port_digits(s@),
            forall|j: int| start <= j < i ==> is_ascii_digit(#[trigger] s@[j]),
            value as nat == digits_value(s@.subrange(start as int, i as int)),
            value <= 65535,
        decreases n - i,
    {
        let c = s.get_char(i);
        if !('0' <= c && c <= '9') {
            assert(!is_ascii_digit(d[i - start]));
            return None;
        }
        let next = value * 10 + ((c as u32) - ('0' as u32));
        proof {
            let p = s@.subrange(start as int, i + 1);
            assert(p.drop_last() =~= s@.subrange(start as int, i as int));
            assert(p.last() == c);
        }
        if next > 65535 {
            proof {
                let k = (i + 1 - start) as int;
                assert(d.subrange(0, k) =~= s@.subrange(start as int, i + 1));
                if forall|j: int| 0 <= j < d.len() ==> is_ascii_digit(#[trigger] d[j]) {
                    lemma_digits_prefix_bound(d, k);
                }
            }
            return None;
        }
        value = next;
        i = i + 1;
    }
    assert(s@.subrange(start as int, n as int) =~= d);
    Some(value as u16)
}

/// A longer run of digits is worth at least as much as its prefix.
proof fn lemma_digits_prefix_bound(d: Seq<char>, k: int)
    requires
        0 <= k <= d.len(),
        forall|i: int| 0 <= i < d.len() ==> is_ascii_digit(#[trigger] d[i]),
    ensures
        digits_value(d.subrange(0, k)) <= digits_value(d),
    decreases d.len() - k,
{
    if k < d.len() {
        lemma_digits_prefix_bound(d, k + 1);
        let p = d.subrange(0, k + 1);
        assert(p.drop_last() =~= d.subrange(0, k));
        assert(is_ascii_digit(p.last()));
    } else {
        assert(d.subrange(0, k) =~= d);
    }
}

/// The pieces of a text split at each comma; a text without commas is one
/// piece.
pub open spec fn split_commas(s: Seq<char>) -> Seq<Seq<char>>
    decreases s.len(),
{
    if s.len() == 0 {
        seq![seq![]]
    } else {
        let prev = split_commas(s.drop_last());
        if s.last() == ',' {
            prev.push(seq![])
        } else {
            prev.update(prev.len() - 1, prev.last().push(s.last()))
        }
    }
}

proof fn lemma_split_nonempty(s: Seq<char>)
    ensures
        split_commas(s).len() >= 1,
    decreases s.len(),
{
    if s.len() > 0 {
        lemma_split_nonempty(s.drop_last());
    }
}

/// Splits a text at each comma.
pub fn split_at_commas(s: &str) -> (r: Vec<String>)
    ensures
        r.deep_view() == split_commas(s@),
{
    let n = s.unicode_len();
    let mut pieces: Vec<String> = Vec::new();
    let mut current = String::new();
    let mut i: usize = 0;
    proof {
        assert(s@.subrange(0, 0) =~= Seq::<char>::empty());
        assert(pieces.deep_view().push(current@) =~= split_commas(s@.subrange(0, 0)));
    }
    while i < n
        invariant
            n == s@.len(),
            i <= n,
            pieces.deep_view().push(current@) == split_commas(s@.subrange(0, i as int)),
        decreases n - i,
    {
        let c = s.get_char(i);
        let ghost before = pieces.deep_view().push(current@);
        proof {
            let p = s@.subrange(0, i + 1);
            assert(p.drop_last() =~= s@.subrange(0, i as int));
            assert(p.last() == c);
        }
        if c == ',' {
            let done = current;
            pieces.push(done);
            current = String::new();
            proof {
                assert(pieces.deep_view().push(current@) =~= before.push(seq![]));
            }
        } else {
            push_char(&mut current, c);
            proof {
                assert(pieces.deep_view().push(current@) =~= before.update(
                    before.len() - 1,
                    before.last().push(c),
                ));
            }
        }
        i = i + 1;
    }
    pieces.push(current);
    proof {
        assert(s@.subrange(0, n as int) =~= s@);
    }
    pieces
}

/// The listed origins: split at commas, each trimmed.
pub open spec fn origins_of(s: Seq<char>) -> Seq<Seq<char>> {
    split_commas(s).map_values(|p: Seq<char>| trimmed(p))
}

/// Splits a comma-separated list and trims each entry.
pub fn parse_origins(s: &str) -> (r: Vec<String>)
    ensures
        r.deep_view() == origins_of(s@),
{
    let pieces = split_at_commas(s);
    let mut out: Vec<String> = Vec::new();
    let mut i: usize = 0;
    while i < pieces.len()
        invariant
            i <= pieces@.len(),
            pieces.deep_view() == split_commas(s@),
            out.deep_view() == split_commas(s@).take(i as int).map_values(|p: Seq<char>| trimmed(p)),
        decreases pieces@.len() - i,
    {
        let t = trim_text(pieces[i].as_str());
        let ghost before = out.deep_view();
        proof {
            assert(pieces.deep_view()[i as int] == pieces@[i as int]@);
        }
        out.push(t);
        i = i + 1;
        proof {
            assert(out.deep_view() =~= before.push(t@));
            assert(out.deep_view() =~= split_commas(s@).take(i as int).map_values(
                |p: Seq<char>| trimmed(p),
            ));
        }
    }
    proof {
        assert(split_commas(s@).take(pieces@.len() as int) =~= split_commas(s@));
    }
    out
}

/// A required setting, or the message that names it.
fn required(value: Option<String>, missing: &str) -> (r: Result<String, String>)
    ensures
        match value {
            Some(v) => r == Ok::<String, String>(v),
            None => r is Err && r->Err_0@ == missing@,
        },
{
    match value {
        Some(v) => Ok(v),
        None => Err(String::from_str(missing)),
    }
}

/// The first problem of the raw settings, in field order: a required
/// setting that is unset, or a port that does not read as one.
pub open spec fn config_error(vars: ConfigVars) -> Option<Seq<char>> {
    if vars.database_url is None {
        Some("DATABASE_URL must be set"@)
    } else if vars.port is Some && port_of(vars.port->0@) is None {
        Some("PORT must be a valid number"@)
    } else if vars.jwt_secret is None {
        Some("JWT_SECRET must be set"@)
    } else if vars.aws_access_key_id is None {
        Some("AWS_ACCESS_KEY_ID must be set"@)
    } else if vars.aws_secret_access_key is None {
        Some("AWS_SECRET_ACCESS_KEY must be set"@)
    } else if vars.aws_s3_bucket is None {
        Some("AWS_S3_BUCKET must be set"@)
    } else if vars.email_api_key is None {
        Some("EMAIL_API_KEY must be set"@)
    } else if vars.email_from is None {
        Some("EMAIL_FROM must be set"@)
    } else if vars.email_to is None {
        Some("EMAIL_TO must be set"@)
    } else {
        None
    }
}

impl Config {
    /// Builds the settings from the raw values: required ones must be set,
    /// the port defaults to 3000, the region to `us-east-1` and the allowed
    /// origins to `http://localhost:4321`. The first problem found is
    /// reported, in field order.
    pub fn from_vars(vars: ConfigVars) -> (r: Result<Config, String>)
        ensures
            r is Ok <==> config_error(vars) is None,
            r is Ok ==> {
                let c = r->Ok_0;
                &&& c.database_url == vars.database_url->0
                &&& c.port == match vars.port {
                    Some(p) => port_of(p@)->0,
                    None => 3000,
                }
                &&& c.jwt_secret == vars.jwt_secret->0
                &&& c.aws_access_key_id == vars.aws_access_key_id->0
                &&& c.aws_secret_access_key == vars.aws_secret_access_key->0
                &&& c.aws_region@ == match vars.aws_region {
                    Some(v) => v@,
                    None => "us-east-1"@,
                }
                &&& c.aws_s3_bucket == vars.aws_s3_bucket->0
                &&& c.email_api_key == vars.email_api_key->0
                &&& c.email_from == vars.email_from->0
                &&& c.email_to == vars.email_to->0
                &&& c.cors_origin.deep_view() == origins_of(
                    match vars.cors_origin {
                        Some(v) => v@,
                        None => "http://localhost:4321"@,
                    },
                )
            },
            r is Err ==> config_error(vars) is Some && r->Err_0@ == config_error(vars)->0,
    {
        let database_url = required(vars.database_url, "DATABASE_URL must be set")?;
        let port = match vars.port {
            Some(p) => match parse_port(p.as_str()) {
                Some(n) => n,
                None => {
                    return Err(String::from_str("PORT must be a valid number"));
                },
            },
            None => 3000,
        };
        let jwt_secret = required(vars.jwt_secret, "JWT_SECRET must be set")?;
        let aws_access_key_id = required(vars.aws_access_key_id, "AWS_ACCESS_KEY_ID must be set")?;
        let aws_secret_access_key = required(
            vars.aws_secret_access_key,
            "AWS_SECRET_ACCESS_KEY must be set",
        )?;
        let aws_region = match vars.aws_region {
            Some(v) => v,
            None => String::from_str("us-east-1"),
        };
        let aws_s3_bucket = required(vars.aws_s3_bucket, "AWS_S3_BUCKET must be set")?;
        let email_api_key = required(vars.email_api_key, "EMAIL_API_KEY must be set")?;
        let email_from = required(vars.email_from, "EMAIL_FROM must be set")?;
        let email_to = required(vars.email_to, "EMAIL_TO must be set")?;
        let cors_origin = match &vars.cors_origin {
            Some(v) => parse_origins(v.as_str()),
            None => parse_origins("http://localhost:4321"),
        };
        Ok(
            Config {
                database_url,
                port,
                jwt_secret,
                aws_access_key_id,
                aws_secret_access_key,
                aws_region,
                aws_s3_bucket,
                email_api_key,
                email_from,
                email_to,
                cors_origin,
            },
        )
    }
}

} // verus!
