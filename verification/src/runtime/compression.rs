//! Gzip compression of response bodies when it pays off: for a client that
//! accepts gzip, a body larger than `GZIP_MIN_SIZE` bytes, a compressible
//! content type, and a compressed form that is smaller.

use crate::constants::GZIP_MIN_SIZE;
use crate::runtime::request::{find_header, headers_view, Response};
use crate::text::{
    chars_of, contains_chars, has_infix, has_prefix, lowercase_of, push_decimal, decimal,
    starts_with_chars, str_eq, str_to_lowercase,
};
use vstd::prelude::*;

verus! {

broadcast use vstd::string::group_string_axioms;

/// What flate2's `GzEncoder` at `Compression::fast()`, with its default
/// header, produces for `data`.
pub uninterp spec fn gzip_fast(data: Seq<u8>) -> Seq<u8>;

/// flate2 gzip compression (`GzEncoder::new` at `Compression::fast()`, one
/// `write_all`, then `finish`) into a `Vec<u8>`: the result is the stream
/// named `gzip_fast(data)`. The encoder's sink is a vector, whose writes
/// never fail, so neither call reports an error and the result is `Some`.
#[verifier::external_body]
fn gzip_compress(data: &[u8]) -> (r: Option<Vec<u8>>)
    ensures
        r is Some,
        r matches Some(c) ==> c@ == gzip_fast(data@),
{
    let mut encoder = flate2::write::GzEncoder::new(Vec::with_capacity(data.len()), flate2::Compression::fast());
    if std::io::Write::write_all(&mut encoder, data).is_err() {
        return None;
    }
    encoder.finish().ok()
}

/// A content type worth compressing: text, JSON, XML, JavaScript or SVG.
pub open spec fn compressible(content_type: Seq<char>) -> bool {
    has_prefix(content_type, "text/"@) || has_infix(content_type, "json"@) || has_infix(
        content_type,
        "xml"@,
    ) || has_infix(content_type, "javascript"@) || content_type == "image/svg+xml"@
}

/// Checks whether a content type is compressible (text-based or JSON/XML).
pub fn is_compressible_content_type(content_type: &str) -> (b: bool)
    ensures
        b == compressible(content_type@),
{
    let ct = chars_of(content_type);
    let text = chars_of("text/");
    let json = chars_of("json");
    let xml = chars_of("xml");
    let js = chars_of("javascript");
    starts_with_chars(ct.as_slice(), text.as_slice()) || contains_chars(ct.as_slice(), json.as_slice())
        || contains_chars(ct.as_slice(), xml.as_slice()) || contains_chars(ct.as_slice(), js.as_slice())
        || str_eq(content_type, "image/svg+xml")
}

/// Whether compression is worth attempting for a body.
pub open spec fn worth_compressing(len: nat, content_type: Seq<char>, accepts_gzip: bool) -> bool {
    accepts_gzip && len > GZIP_MIN_SIZE && compressible(content_type)
}

/// Compresses a body with gzip when appropriate; returns the body to send
/// and the `Content-Encoding` to announce. The compressed form is used
/// exactly when compression is worth attempting and the compressed form is
/// smaller; otherwise the body comes back unchanged with no encoding.
pub fn maybe_compress_body(body: Vec<u8>, content_type: &str, client_accepts_gzip: bool) -> (r: (
    Vec<u8>,
    Option<&'static str>,
))
    ensures
        !worth_compressing(body@.len(), content_type@, client_accepts_gzip) ==> r.0@ == body@
            && r.1 is None,
        worth_compressing(body@.len(), content_type@, client_accepts_gzip) && gzip_fast(body@).len()
            >= body@.len() ==> r.0@ == body@ && r.1 is None,
        worth_compressing(body@.len(), content_type@, client_accepts_gzip) && gzip_fast(body@).len()
            < body@.len() ==> r.0@ == gzip_fast(body@) && r.1 == Some("gzip"),
        r.1 is None ==> r.0@ == body@,
        r.1 matches Some(e) ==> e@ == "gzip"@ && r.0@ == gzip_fast(body@) && r.0@.len() < body@.len()
            && worth_compressing(body@.len(), content_type@, client_accepts_gzip),
{
    if !client_accepts_gzip {
        return (body, None);
    }
    if body.len() <= GZIP_MIN_SIZE {
        return (body, None);
    }
    if !is_compressible_content_type(content_type) {
        return (body, None);
    }
    match gzip_compress(body.as_slice()) {
        Some(compressed) => {
            if compressed.len() >= body.len() {
                (body, None)
            } else {
                (compressed, Some("gzip"))
            }
        },
        None => (body, None),
    }
}

/// The headers of a compressed response: those of the uncompressed response except
/// `Content-Length` (any case), then the encoding and the new length.
pub open spec fn compressed_headers(
    hs: Seq<(Seq<char>, Seq<char>)>,
    len: nat,
) -> Seq<(Seq<char>, Seq<char>)> {
    hs.filter(|p: (Seq<char>, Seq<char>)| lowercase_of(p.0) != "content-length"@).push(
        ("content-encoding"@, "gzip"@),
    ).push(("content-length"@, decimal(len)))
}

/// Applies gzip compression to a response when appropriate: when the client
/// accepts gzip, the response's content type and size make it worth it and
/// the compressed form is smaller, the body is replaced by its compressed
/// form and the headers announce it; otherwise the response is unchanged.
pub fn maybe_compress_response(response: Response, client_accepts_gzip: bool) -> (r: Response)
    ensures
        r.status == response.status,
        r.body@ == response.body@ ==> r.headers@ == response.headers@,
        r.body@ != response.body@ ==> r.body@ == gzip_fast(response.body@) && r.body@.len()
            < response.body@.len() && headers_view(r.headers@) == compressed_headers(
            headers_view(response.headers@),
            r.body@.len(),
        ) && client_accepts_gzip && worth_compressing(
            response.body@.len(),
            match find_header(headers_view(response.headers@), "content-type"@) {
                Some(ct) => ct,
                None => Seq::empty(),
            },
            true,
        ),
        !worth_compressing(
            response.body@.len(),
            match find_header(headers_view(response.headers@), "content-type"@) {
                Some(ct) => ct,
                None => Seq::empty(),
            },
            client_accepts_gzip,
        ) ==> r.body@ == response.body@ && r.headers@ == response.headers@,
        gzip_fast(response.body@).len() >= response.body@.len() ==> r.body@ == response.body@
            && r.headers@ == response.headers@,
        worth_compressing(
            response.body@.len(),
            match find_header(headers_view(response.headers@), "content-type"@) {
                Some(ct) => ct,
                None => Seq::empty(),
            },
            client_accepts_gzip,
        ) && gzip_fast(response.body@).len() < response.body@.len() ==> r.body@ == gzip_fast(
            response.body@,
        ) && headers_view(r.headers@) == compressed_headers(
            headers_view(response.headers@),
            r.body@.len(),
        ),
{
    if !client_accepts_gzip {
        return response;
    }
    let content_type: String = match response.header("content-type") {
        Some(ct) => ct.to_string(),
        None => String::new(),
    };
    let Response { status, headers, body } = response;
    let (new_body, encoding) = maybe_compress_body(body, content_type.as_str(), true);
    match encoding {
        None => Response { status, headers, body: new_body },
        Some(_) => {
            let mut out: Vec<(String, String)> = Vec::new();
            let mut i: usize = 0;
            while i < headers.len()
                invariant
                    0 <= i <= headers@.len(),
                    headers_view(out@) == headers_view(headers@).take(i as int).filter(
                        |p: (Seq<char>, Seq<char>)| lowercase_of(p.0) != "content-length"@,
                    ),
                decreases headers@.len() - i,
            {
                let ghost hv = headers_view(headers@);
                assert(hv.take(i + 1).drop_last() =~= hv.take(i as int));
                assert(hv.take(i + 1).last() == (headers@[i as int].0@, headers@[i as int].1@));
                reveal(Seq::filter);
                let lower = str_to_lowercase(headers[i].0.as_str());
                if !str_eq(lower.as_str(), "content-length") {
                    let ghost prev = out@;
                    out.push((headers[i].0.clone(), headers[i].1.clone()));
                    assert(headers_view(out@) =~= headers_view(prev).push(
                        (headers@[i as int].0@, headers@[i as int].1@),
                    ));
                }
                i = i + 1;
            }
            assert(headers_view(headers@).take(headers@.len() as int) =~= headers_view(headers@));
            let ghost kept = out@;
            out.push(("content-encoding".to_string(), "gzip".to_string()));
            let mut len_text = String::new();
            push_decimal(&mut len_text, new_body.len() as u64);
            out.push(("content-length".to_string(), len_text));
            assert(headers_view(out@) =~= headers_view(kept).push(("content-encoding"@, "gzip"@)).push(
                ("content-length"@, decimal(new_body@.len())),
            ));
            Response { status, headers: out, body: new_body }
        },
    }
}

/// A content type that starts with `text/` or mentions `json`, `xml` or
/// `javascript` anywhere (for instance `application/json; charset=utf-8`)
/// is compressible.
pub proof fn lemma_marked_types_are_compressible(content_type: Seq<char>)
    requires
        has_infix(content_type, "json"@) || has_infix(content_type, "xml"@) || has_infix(
            content_type,
            "javascript"@,
        ) || has_prefix(content_type, "text/"@),
    ensures
        compressible(content_type),
{
}

proof fn lemma_infix_extends(s: Seq<char>, extra: Seq<char>, t: Seq<char>)
    requires
        has_infix(s, t),
    ensures
        has_infix(s + extra, t),
{
    let i = choose|i: int| 0 <= i && i + t.len() <= s.len() && #[trigger] s.subrange(i, i + t.len()) == t;
    assert((s + extra).subrange(i, i + t.len()) =~= s.subrange(i, i + t.len()));
}

/// Parameters appended to a compressible content type (such as
/// `; charset=utf-8`) keep it compressible, and keep a body worth
/// compressing.
pub proof fn lemma_parameters_keep_compressible(
    content_type: Seq<char>,
    params: Seq<char>,
    len: nat,
    accepts_gzip: bool,
)
    requires
        compressible(content_type),
    ensures
        compressible(content_type + params),
        worth_compressing(len, content_type, accepts_gzip) ==> worth_compressing(
            len,
            content_type + params,
            accepts_gzip,
        ),
{
    let ext = content_type + params;
    if has_prefix(content_type, "text/"@) {
        assert(ext.subrange(0, "text/"@.len() as int) =~= content_type.subrange(0, "text/"@.len() as int));
    } else if has_infix(content_type, "json"@) {
        lemma_infix_extends(content_type, params, "json"@);
    } else if has_infix(content_type, "xml"@) {
        lemma_infix_extends(content_type, params, "xml"@);
    } else if has_infix(content_type, "javascript"@) {
        lemma_infix_extends(content_type, params, "javascript"@);
    } else {
        reveal_strlit("image/svg+xml");
        reveal_strlit("xml");
        assert(content_type == "image/svg+xml"@);
        assert(content_type.subrange(10, 10 + "xml"@.len() as int) =~= "xml"@);
        assert(has_infix(content_type, "xml"@));
        lemma_infix_extends(content_type, params, "xml"@);
    }
}

/// Only the marked types are compressible: a compressible content type
/// starts with `text/` or mentions `json`, `xml` or `javascript`.
pub proof fn lemma_compressible_types_are_marked(content_type: Seq<char>)
    requires
        compressible(content_type),
    ensures
        has_infix(content_type, "json"@) || has_infix(content_type, "xml"@) || has_infix(
            content_type,
            "javascript"@,
        ) || has_prefix(content_type, "text/"@),
{
    if content_type == "image/svg+xml"@ {
        reveal_strlit("image/svg+xml");
        reveal_strlit("xml");
        assert(content_type.subrange(10, 10 + "xml"@.len() as int) =~= "xml"@);
    }
}

} // verus!
