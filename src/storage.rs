use vstd::prelude::*;
use vstd::string::*;
use crate::text::push_char;
use crate::error::{ApiError, ApiResult};

verus! {

/// The largest file accepted for upload: 10 MiB.
pub const MAX_UPLOAD_BYTES: usize = 10485760;

/// Where an accepted upload goes: its file extension and its folder.
#[derive(Debug, Clone, Copy, PartialEq, Eq)]
pub struct UploadTarget {
    pub extension: &'static str,
    pub folder: &'static str,
}

/// The content types accepted for upload (JPEG and WebP images, PDF
/// documents), with the extension and folder of each.
pub open spec fn upload_target_of(content_type: Seq<char>) -> Option<(Seq<char>, Seq<char>)> {
    if content_type == "image/jpeg"@ {
        Some(("jpg"@, "images"@))
    } else if content_type == "image/webp"@ {
        Some(("webp"@, "images"@))
    } else if content_type == "application/pdf"@ {
        Some(("pdf"@, "documents"@))
    } else {
        None
    }
}

/// Relies on `uuid::Uuid::new_v4` and its hyphenated text form, which is 36
/// characters long. Nothing is known of the value.
#[verifier::external_body]
fn random_uuid() -> (r: String)
    ensures
        r@.len() == 36,
{
    uuid::Uuid::new_v4().to_string()
}

/// Character-by-character equality of two texts.
pub fn text_eq(a: &str, b: &str) -> (r: bool)
    ensures
        r == (a@ == b@),
{
    let n = a.unicode_len();
    if n != b.unicode_len() {
        return false;
    }
    let mut i: usize = 0;
    while i < n
        invariant
            n == a@.len(),
            n == b@.len(),
            i <= n,
            forall|j: int| 0 <= j < i ==> a@[j] == b@[j],
        decreases n - i,
    {
        if a.get_char(i) != b.get_char(i) {
            return false;
        }
        i = i + 1;
    }
    assert(a@ =~= b@);
    true
}

/// Picks the extension and folder of an upload by its content type; any type
/// but JPEG, WebP and PDF is refused.
pub fn upload_target(content_type: &str) -> (r: ApiResult<UploadTarget>)
    ensures
        match upload_target_of(content_type@) {
            Some((ext, folder)) => r is Ok && r->Ok_0.extension@ == ext && r->Ok_0.folder@
                == folder,
            None => r is Err && r->Err_0 is BadRequest && r->Err_0->BadRequest_0@
                == "Tipo de archivo no permitido. Solo se aceptan: JPEG, WebP y PDF"@,
        },
{
    if text_eq(content_type, "image/jpeg") {
        Ok(UploadTarget { extension: "jpg", folder: "images" })
    } else if text_eq(content_type, "image/webp") {
        Ok(UploadTarget { extension: "webp", folder: "images" })
    } else if text_eq(content_type, "application/pdf") {
        Ok(UploadTarget { extension: "pdf", folder: "documents" })
    } else {
        Err(
            ApiError::BadRequest(
                String::from_str("Tipo de archivo no permitido. Solo se aceptan: JPEG, WebP y PDF"),
            ),
        )
    }
}

/// Refuses a file larger than 10 MiB.
pub fn check_upload_size(len: usize) -> (r: ApiResult<()>)
    ensures
        r is Ok <==> len <= MAX_UPLOAD_BYTES,
        r is Err ==> r->Err_0 is BadRequest && r->Err_0->BadRequest_0@
            == "Archivo muy grande (max 10MB)"@,
{
    if len > MAX_UPLOAD_BYTES {
        Err(ApiError::BadRequest(String::from_str("Archivo muy grande (max 10MB)")))
    } else {
        Ok(())
    }
}

/// The object key of an upload: `products/<folder>/<name>.<extension>`.
pub open spec fn object_key_of(folder: Seq<char>, name: Seq<char>, ext: Seq<char>) -> Seq<char> {
    "products/"@ + folder + "/"@ + name + "."@ + ext
}

/// The public address of an object: `https://<bucket>.s3.amazonaws.com/<key>`.
pub open spec fn object_url_of(bucket: Seq<char>, key: Seq<char>) -> Seq<char> {
    "https://"@ + bucket + ".s3.amazonaws.com/"@ + key
}

/// Builds the object key of an upload.
pub fn object_key(target: UploadTarget, name: &str) -> (r: String)
    ensures
        r@ == object_key_of(target.folder@, name@, target.extension@),
{
    let mut k = String::from_str("products/");
    k.append(target.folder);
    k.append("/");
    k.append(name);
    k.append(".");
    k.append(target.extension);
    k
}

/// A fresh object key for an upload of the given content type, under a
/// random name so that keys neither collide nor can be enumerated.
pub fn new_upload_key(content_type: &str) -> (r: ApiResult<String>)
    ensures
        match upload_target_of(content_type@) {
            Some((ext, folder)) => r is Ok && exists|name: Seq<char>|
                name.len() == 36 && r->Ok_0@ == #[trigger] object_key_of(folder, name, ext),
            None => r is Err && r->Err_0 is BadRequest && r->Err_0->BadRequest_0@
                == "Tipo de archivo no permitido. Solo se aceptan: JPEG, WebP y PDF"@,
        },
{
    let target = upload_target(content_type)?;
    let name = random_uuid();
    let key = object_key(target, name.as_str());
    assert(key@ == object_key_of(target.folder@, name@, target.extension@));
    Ok(key)
}

/// Builds the public address of an object.
pub fn object_url(bucket: &str, key: &str) -> (r: String)
    ensures
        r@ == object_url_of(bucket@, key@),
{
    let mut u = String::from_str("https://");
    u.append(bucket);
    u.append(".s3.amazonaws.com/");
    u.append(key);
    u
}

/// `m` occurs in `s` at position `i`.
pub open spec fn occurs_at(s: Seq<char>, m: Seq<char>, i: int) -> bool {
    0 <= i && i + m.len() <= s.len() && s.subrange(i, i + m.len()) == m
}

/// The first position at or after `from` where `m` occurs in `s`.
pub open spec fn find_from(s: Seq<char>, m: Seq<char>, from: int) -> Option<int>
    decreases s.len() + 1 - from,
{
    if from < 0 || from + m.len() > s.len() {
        None
    } else if occurs_at(s, m, from) {
        Some(from)
    } else {
        find_from(s, m, from + 1)
    }
}

/// The second piece of `s` split at `m`: the text after the first
/// occurrence of `m`, up to the next one. `None` when `m` does not occur.
pub open spec fn second_piece(s: Seq<char>, m: Seq<char>) -> Option<Seq<char>> {
    match find_from(s, m, 0) {
        None => None,
        Some(i) => {
            let rest = s.subrange(i + m.len(), s.len() as int);
            match find_from(rest, m, 0) {
                None => Some(rest),
                Some(j) => Some(rest.subrange(0, j)),
            }
        },
    }
}

fn occurs_at_exec(s: &Vec<char>, m: &Vec<char>, i: usize) -> (r: bool)
    requires
        i + m@.len() <= s@.len(),
    ensures
        r == occurs_at(s@, m@, i as int),
{
    let slen = s.len();
    let mut j: usize = 0;
    while j < m.len()
        invariant
            slen == s@.len(),
            i + m@.len() <= s@.len(),
            j <= m@.len(),
            forall|k: int| 0 <= k < j ==> s@[i + k] == m@[k],
        decreases m@.len() - j,
    {
        if s[i + j] != m[j] {
            assert(s@.subrange(i as int, i + m@.len())[j as int] != m@[j as int]);
            return false;
        }
        j = j + 1;
    }
    assert(s@.subrange(i as int, i + m@.len()) =~= m@);
    true
}

fn find_exec(s: &Vec<char>, m: &Vec<char>, from: usize) -> (r: Option<usize>)
    requires
        from <= s@.len(),
    ensures
        match r {
            Some(i) => find_from(s@, m@, from as int) == Some(i as int),
            None => find_from(s@, m@, from as int) is None,
        },
    decreases s@.len() + 1 - from,
{
    if m.len() > s.len() || from > s.len() - m.len() {
        None
    } else if occurs_at_exec(s, m, from) {
        Some(from)
    } else {
        proof {
            if m@.len() == 0 {
                assert(s@.subrange(from as int, from as int) =~= m@);
            }
        }
        find_exec(s, m, from + 1)
    }
}

fn chars_of(s: &str) -> (r: Vec<char>)
    ensures
        r@ == s@,
{
    let n = s.unicode_len();
    let mut out: Vec<char> = Vec::new();
    let mut i: usize = 0;
    while i < n
        invariant
            n == s@.len(),
            i <= n,
            out@ == s@.subrange(0, i as int),
        decreases n - i,
    {
        out.push(s.get_char(i));
        i = i + 1;
        assert(out@ =~= s@.subrange(0, i as int));
    }
    assert(out@ =~= s@);
    out
}

fn string_of(chars: &Vec<char>, from: usize, to: usize) -> (r: String)
    requires
        from <= to <= chars@.len(),
    ensures
        r@ == chars@.subrange(from as int, to as int),
{
    let mut out = String::new();
    let mut i: usize = from;
    while i < to
        invariant
            from <= i <= to <= chars@.len(),
            out@ == chars@.subrange(from as int, i as int),
        decreases to - i,
    {
        push_char(&mut out, chars[i]);
        i = i + 1;
        assert(out@ =~= chars@.subrange(from as int, i as int));
    }
    out
}

/// The object key of a stored file from its public address: the text after
/// `<bucket>.s3.amazonaws.com/`. An address without that part is refused.
pub fn key_from_url(bucket: &str, url: &str) -> (r: ApiResult<String>)
    ensures
        match second_piece(url@, bucket@ + ".s3.amazonaws.com/"@) {
            Some(key) => r is Ok && r->Ok_0@ == key,
            None => r is Err && r->Err_0 is BadRequest && r->Err_0->BadRequest_0@
                == "URL de S3 inválida"@,
        },
{
    let mut marker_text = String::from_str(bucket);
    marker_text.append(".s3.amazonaws.com/");
    let marker = chars_of(marker_text.as_str());
    let s = chars_of(url);
    let slen = s.len();
    match find_exec(&s, &marker, 0) {
        None => Err(ApiError::BadRequest(String::from_str("URL de S3 inválida"))),
        Some(i) => {
            proof {
                lemma_find_in_bounds(s@, marker@, 0, i as int);
            }
            let start = i + marker.len();
            let rest = string_of(&s, start, s.len());
            let rest_chars = chars_of(rest.as_str());
            match find_exec(&rest_chars, &marker, 0) {
                None => Ok(rest),
                Some(j) => {
                    proof {
                        lemma_find_in_bounds(rest_chars@, marker@, 0, j as int);
                    }
                    Ok(string_of(&rest_chars, 0, j))
                },
            }
        },
    }
}

proof fn lemma_find_in_bounds(s: Seq<char>, m: Seq<char>, from: int, i: int)
    requires
        find_from(s, m, from) == Some(i),
    ensures
        from <= i,
        i + m.len() <= s.len(),
        occurs_at(s, m, i),
    decreases s.len() + 1 - from,
{
    if from < 0 || from + m.len() > s.len() {
    } else if occurs_at(s, m, from) {
    } else {
        lemma_find_in_bounds(s, m, from + 1, i);
    }
}

} // verus!
