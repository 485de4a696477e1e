//! Request and Response types for the library-first API.
//!
//! These framework-agnostic types let the runtime be embedded in other
//! applications: a request is a method, a path, header pairs and a body, and
//! so is a response with a status code in place of method and path.

use crate::text::{
    chars_of, contains_chars, has_infix, lowercase_of, push_str, str_to_lowercase,
};
use vstd::prelude::*;
use vstd::utf8::{decode_utf8, encode_utf8, valid_utf8};

verus! {

broadcast use vstd::string::group_string_axioms;

/// The headers as pairs of character sequences.
pub open spec fn headers_view(h: Seq<(String, String)>) -> Seq<(Seq<char>, Seq<char>)> {
    h.map_values(|p: (String, String)| (p.0@, p.1@))
}

/// The value of the first header whose name equals `name` ignoring case.
pub open spec fn find_header(hs: Seq<(Seq<char>, Seq<char>)>, name: Seq<char>) -> Option<Seq<char>>
    decreases hs.len(),
{
    if hs.len() == 0 {
        None
    } else if lowercase_of(hs[0].0) == lowercase_of(name) {
        Some(hs[0].1)
    } else {
        find_header(hs.subrange(1, hs.len() as int), name)
    }
}

/// The decimal digits `0`-`9` only.
pub open spec fn all_digits(s: Seq<char>) -> bool {
    forall|i: int| 0 <= i < s.len() ==> '0' <= #[trigger] s[i] && s[i] <= '9'
}

/// The value of a sequence of decimal digits.
pub open spec fn digits_value(s: Seq<char>) -> nat
    decreases s.len(),
{
    if s.len() == 0 {
        0
    } else {
        digits_value(s.drop_last()) * 10 + ((s.last() as u32) - ('0' as u32)) as nat
    }
}

/// What `str::parse::<usize>` accepts: an optional `+` followed by at least one
/// decimal digit, with a value that fits in `usize`.
pub open spec fn parse_usize_spec(s: Seq<char>) -> Option<nat> {
    let d = if s.len() > 0 && s[0] == '+' {
        s.subrange(1, s.len() as int)
    } else {
        s
    };
    if d.len() > 0 && all_digits(d) && digits_value(d) <= usize::MAX {
        Some(digits_value(d))
    } else {
        None
    }
}

proof fn lemma_digits_value_prefix(s: Seq<char>, i: int)
    requires
        0 <= i <= s.len(),
        all_digits(s),
    ensures
        digits_value(s.subrange(0, i)) <= digits_value(s),
    decreases s.len() - i,
{
    if i < s.len() {
        lemma_digits_value_prefix(s, i + 1);
        assert(s.subrange(0, i + 1).drop_last() =~= s.subrange(0, i));
        assert('0' <= s[i] && s[i] <= '9');
    } else {
        assert(s.subrange(0, i) =~= s);
    }
}

/// Parses a decimal `usize` as std `str::parse::<usize>` does.
#[verifier::loop_isolation(false)]
pub fn parse_usize(s: &str) -> (r: Option<usize>)
    ensures
        match r {
            Some(v) => parse_usize_spec(s@) == Some(v as nat),
            None => parse_usize_spec(s@) is None,
        },
{
    let cs = chars_of(s);
    let start: usize = if cs.len() > 0 && cs[0] == '+' {
        1
    } else {
        0
    };
    let ghost d = cs@.subrange(start as int, cs@.len() as int);
    proof {
        if !(cs@.len() > 0 && cs@[0] == '+') {
            assert(d =~= cs@);
        }
    }
    if start >= cs.len() {
        return None;
    }
    let mut v: usize = 0;
    let mut i: usize = start;
    assert(d.subrange(0, 0) =~= Seq::<char>::empty());
    while i < cs.len()
        invariant
            start <= i <= cs@.len(),
            d == cs@.subrange(start as int, cs@.len() as int),
            all_digits(d.subrange(0, i - start)),
            v as nat == digits_value(d.subrange(0, i - start)),
        decreases cs@.len() - i,
    {
        let c = cs[i];
        if !('0' <= c && c <= '9') {
            assert(d[i - start] == c);
            return None;
        }
        let digit = (c as u32 - '0' as u32) as usize;
        assert(d.subrange(0, i + 1 - start).drop_last() =~= d.subrange(0, i - start));
        assert(d.subrange(0, i + 1 - start).last() == c);
        match v.checked_mul(10) {
            None => {
                proof {
                    assert(all_digits(d.subrange(0, i + 1 - start)));
                    if all_digits(d) {
                        lemma_digits_value_prefix(d, i + 1 - start);
                    }
                }
                return None;
            },
            Some(t) => match t.checked_add(digit) {
                None => {
                    proof {
                        assert(all_digits(d.subrange(0, i + 1 - start)));
                        if all_digits(d) {
                            lemma_digits_value_prefix(d, i + 1 - start);
                        }
                    }
                    return None;
                },
                Some(n) => {
                    v = n;
                },
            },
        }
        i = i + 1;
        assert(all_digits(d.subrange(0, i - start)));
    }
    assert(d.subrange(0, cs@.len() - start) =~= d);
    Some(v)
}

/// A framework-agnostic HTTP request.
#[derive(Debug, Clone)]
pub struct Request {
    /// HTTP method (e.g., "GET", "POST", "PUT", "DELETE").
    pub method: String,
    /// Request path including query string.
    pub path: String,
    /// HTTP headers as (name, value) pairs.
    pub headers: Vec<(String, String)>,
    /// Request body as raw bytes.
    pub body: Vec<u8>,
}

/// The bytes of a string in UTF-8.
fn utf8_bytes(s: &str) -> (b: Vec<u8>)
    ensures
        b@ == encode_utf8(s@),
{
    vstd::slice::slice_to_vec(s.as_bytes())
}

/// Finds the first header named `name`, ignoring case.
pub(crate) fn lookup_header<'a>(headers: &'a Vec<(String, String)>, name: &str) -> (r: Option<&'a str>)
    ensures
        match r {
            Some(v) => find_header(headers_view(headers@), name@) == Some(v@),
            None => find_header(headers_view(headers@), name@) is None,
        },
{
    let wanted = str_to_lowercase(name);
    let mut i: usize = 0;
    proof {
        assert(headers_view(headers@).subrange(0, headers_view(headers@).len() as int) =~= headers_view(headers@));
    }
    while i < headers.len()
        invariant
            0 <= i <= headers@.len(),
            wanted@ == lowercase_of(name@),
            find_header(headers_view(headers@), name@) == find_header(
                headers_view(headers@).subrange(i as int, headers@.len() as int),
                name@,
            ),
        decreases headers@.len() - i,
    {
        let ghost rest = headers_view(headers@).subrange(i as int, headers@.len() as int);
        assert(rest[0] == (headers@[i as int].0@, headers@[i as int].1@));
        assert(rest.subrange(1, rest.len() as int) =~= headers_view(headers@).subrange(
            i + 1,
            headers@.len() as int,
        ));
        let candidate = str_to_lowercase(headers[i].0.as_str());
        if candidate == wanted {
            return Some(headers[i].1.as_str());
        }
        i = i + 1;
    }
    None
}

/// The pairs of a header list given as string slices.
pub open spec fn pairs_view(h: Seq<(&str, &str)>) -> Seq<(Seq<char>, Seq<char>)> {
    h.map_values(|p: (&str, &str)| (p.0@, p.1@))
}

/// Appends owned copies of `headers` to `dst`, in order.
fn append_headers(dst: &mut Vec<(String, String)>, headers: &Vec<(&str, &str)>)
    ensures
        headers_view(final(dst)@) == headers_view(old(dst)@) + pairs_view(headers@),
{
    let ghost before = dst@;
    let mut i: usize = 0;
    while i < headers.len()
        invariant
            0 <= i <= headers@.len(),
            headers_view(dst@) == headers_view(before) + pairs_view(headers@.subrange(0, i as int)),
        decreases headers@.len() - i,
    {
        let ghost prev = dst@;
        let (n, v) = headers[i];
        dst.push((n.to_owned(), v.to_owned()));
        assert(headers_view(dst@) =~= headers_view(prev).push((n@, v@)));
        assert(pairs_view(headers@.subrange(0, i + 1)) =~= pairs_view(headers@.subrange(0, i as int)).push((n@, v@)));
        i = i + 1;
    }
    assert(headers@.subrange(0, headers@.len() as int) =~= headers@);
}

/// The JSON error body `{"error": "<message>"}`.
pub open spec fn error_body(message: Seq<char>) -> Seq<char> {
    "{\"error\": \""@ + message + "\"}"@
}

impl Request {
    /// The header value for `name` (case-insensitive), if present.
    pub open spec fn header_spec(&self, name: Seq<char>) -> Option<Seq<char>> {
        find_header(headers_view(self.headers@), name)
    }

    /// Creates a request with the given method and path, no headers and an empty body.
    pub fn new(method: &str, path: &str) -> (r: Self)
        ensures
            r.method@ == method@,
            r.path@ == path@,
            r.headers@.len() == 0,
            r.body@.len() == 0,
    {
        Request { method: method.to_owned(), path: path.to_owned(), headers: Vec::new(), body: Vec::new() }
    }

    /// Adds a header.
    pub fn with_header(self, name: &str, value: &str) -> (r: Self)
        ensures
            r.method == self.method,
            r.path == self.path,
            headers_view(r.headers@) == headers_view(self.headers@).push((name@, value@)),
            r.body == self.body,
    {
        let mut this = self;
        let ghost before = this.headers@;
        this.headers.push((name.to_owned(), value.to_owned()));
        assert(headers_view(this.headers@) =~= headers_view(before).push((name@, value@)));
        this
    }

    /// Adds several headers, in order.
    pub fn with_headers(self, headers: Vec<(&str, &str)>) -> (r: Self)
        ensures
            r.method == self.method,
            r.path == self.path,
            headers_view(r.headers@) == headers_view(self.headers@) + pairs_view(headers@),
            r.body == self.body,
    {
        let mut this = self;
        append_headers(&mut this.headers, &headers);
        this
    }

    /// Sets the body.
    pub fn with_body(self, body: Vec<u8>) -> (r: Self)
        ensures
            r.method == self.method,
            r.path == self.path,
            r.headers == self.headers,
            r.body@ == body@,
    {
        let mut this = self;
        this.body = body;
        this
    }

    /// Sets the body to the UTF-8 bytes of a string.
    pub fn with_body_str(self, body: &str) -> (r: Self)
        ensures
            r.method == self.method,
            r.path == self.path,
            r.headers == self.headers,
            r.body@ == encode_utf8(body@),
    {
        let mut this = self;
        this.body = utf8_bytes(body);
        this
    }

    /// The value of the first header named `name`, ignoring case.
    pub fn header(&self, name: &str) -> (r: Option<&str>)
        ensures
            match r {
                Some(v) => self.header_spec(name@) == Some(v@),
                None => self.header_spec(name@) is None,
            },
    {
        lookup_header(&self.headers, name)
    }

    /// The `Content-Type` header value.
    pub fn content_type(&self) -> (r: Option<&str>)
        ensures
            match r {
                Some(v) => self.header_spec("content-type"@) == Some(v@),
                None => self.header_spec("content-type"@) is None,
            },
    {
        self.header("content-type")
    }

    /// Whether the `Accept-Encoding` header mentions gzip.
    pub fn accepts_gzip(&self) -> (b: bool)
        ensures
            b == match self.header_spec("accept-encoding"@) {
                Some(v) => has_infix(v, "gzip"@),
                None => false,
            },
    {
        match self.header("accept-encoding") {
            Some(v) => {
                let vs = chars_of(v);
                let g = chars_of("gzip");
                contains_chars(vs.as_slice(), g.as_slice())
            },
            None => false,
        }
    }

    /// The `Content-Length` header as a number, when present and well-formed.
    pub fn content_length(&self) -> (r: Option<usize>)
        ensures
            r == match self.header_spec("content-length"@) {
                Some(v) => match parse_usize_spec(v) {
                    Some(n) => Some(n as usize),
                    None => None::<usize>,
                },
                None => None::<usize>,
            },
    {
        match self.header("content-length") {
            Some(v) => parse_usize(v),
            None => None,
        }
    }
}

impl Default for Request {
    fn default() -> (r: Self)
        ensures
            r.method@ == "GET"@,
            r.path@ == "/"@,
            r.headers@.len() == 0,
            r.body@.len() == 0,
    {
        Request::new("GET", "/")
    }
}

/// The failure of `std::str::from_utf8`.
#[verifier::external_type_specification]
#[verifier::external_body]
pub struct ExUtf8Error(std::str::Utf8Error);

/// std `str::from_utf8`: succeeds exactly on valid UTF-8, with the decoded characters.
#[verifier::external_body]
fn str_from_utf8(bytes: &[u8]) -> (r: Result<&str, std::str::Utf8Error>)
    ensures
        match r {
            Ok(s) => valid_utf8(bytes@) && s@ == decode_utf8(bytes@),
            Err(_) => !valid_utf8(bytes@),
        },
{
    std::str::from_utf8(bytes)
}

/// A framework-agnostic HTTP response.
#[derive(Debug, Clone)]
pub struct Response {
    /// HTTP status code.
    pub status: u16,
    /// HTTP headers as (name, value) pairs.
    pub headers: Vec<(String, String)>,
    /// Response body as raw bytes.
    pub body: Vec<u8>,
}

impl Response {
    /// The header value for `name` (case-insensitive), if present.
    pub open spec fn header_spec(&self, name: Seq<char>) -> Option<Seq<char>> {
        find_header(headers_view(self.headers@), name)
    }

    /// A response with the given status, the JSON content type and an error body.
    pub open spec fn is_json_error(&self, status: u16, message: Seq<char>) -> bool {
        &&& self.status == status
        &&& headers_view(self.headers@) == seq![("Content-Type"@, "application/json"@)]
        &&& self.body@ == encode_utf8(error_body(message))
    }

    /// Creates a response with the given status, no headers and an empty body.
    pub fn new(status: u16) -> (r: Self)
        ensures
            r.status == status,
            r.headers@.len() == 0,
            r.body@.len() == 0,
    {
        Response { status, headers: Vec::new(), body: Vec::new() }
    }

    /// A 200 OK response.
    pub fn ok() -> (r: Self)
        ensures
            r.status == 200,
            r.headers@.len() == 0,
            r.body@.len() == 0,
    {
        Self::new(200)
    }

    /// A 201 Created response.
    pub fn created() -> (r: Self)
        ensures
            r.status == 201,
            r.headers@.len() == 0,
            r.body@.len() == 0,
    {
        Self::new(201)
    }

    /// A 204 No Content response.
    pub fn no_content() -> (r: Self)
        ensures
            r.status == 204,
            r.headers@.len() == 0,
            r.body@.len() == 0,
    {
        Self::new(204)
    }

    fn json_error(status: u16, message: &str) -> (r: Self)
        ensures
            r.is_json_error(status, message@),
    {
        let mut text = String::new();
        push_str(&mut text, "{\"error\": \"");
        push_str(&mut text, message);
        push_str(&mut text, "\"}");
        assert(text@ =~= error_body(message@));
        let r = Self::new(status).with_header("Content-Type", "application/json").with_body_str(text.as_str());
        assert(headers_view(r.headers@) =~= seq![("Content-Type"@, "application/json"@)]);
        r
    }

    /// A 400 Bad Request response with a JSON error message.
    pub fn bad_request(message: &str) -> (r: Self)
        ensures
            r.is_json_error(400, message@),
    {
        Self::json_error(400, message)
    }

    /// A 404 Not Found response with a JSON error message.
    pub fn not_found(message: &str) -> (r: Self)
        ensures
            r.is_json_error(404, message@),
    {
        Self::json_error(404, message)
    }

    /// A 500 Internal Server Error response with a JSON error message.
    pub fn internal_error(message: &str) -> (r: Self)
        ensures
            r.is_json_error(500, message@),
    {
        Self::json_error(500, message)
    }

    /// A 502 Bad Gateway response with a JSON error message.
    pub fn bad_gateway(message: &str) -> (r: Self)
        ensures
            r.is_json_error(502, message@),
    {
        Self::json_error(502, message)
    }

    /// A 503 Service Unavailable response with a JSON error message.
    pub fn service_unavailable(message: &str) -> (r: Self)
        ensures
            r.is_json_error(503, message@),
    {
        Self::json_error(503, message)
    }

    /// Adds a header.
    pub fn with_header(self, name: &str, value: &str) -> (r: Self)
        ensures
            r.status == self.status,
            headers_view(r.headers@) == headers_view(self.headers@).push((name@, value@)),
            r.body == self.body,
    {
        let mut this = self;
        let ghost before = this.headers@;
        this.headers.push((name.to_owned(), value.to_owned()));
        assert(headers_view(this.headers@) =~= headers_view(before).push((name@, value@)));
        this
    }

    /// Adds several headers, in order.
    pub fn with_headers(self, headers: Vec<(&str, &str)>) -> (r: Self)
        ensures
            r.status == self.status,
            headers_view(r.headers@) == headers_view(self.headers@) + pairs_view(headers@),
            r.body == self.body,
    {
        let mut this = self;
        append_headers(&mut this.headers, &headers);
        this
    }

    /// Sets the body.
    pub fn with_body(self, body: Vec<u8>) -> (r: Self)
        ensures
            r.status == self.status,
            r.headers == self.headers,
            r.body@ == body@,
    {
        let mut this = self;
        this.body = body;
        this
    }

    /// Sets the body to the UTF-8 bytes of a string.
    pub fn with_body_str(self, body: &str) -> (r: Self)
        ensures
            r.status == self.status,
            r.headers == self.headers,
            r.body@ == encode_utf8(body@),
    {
        let mut this = self;
        this.body = utf8_bytes(body);
        this
    }

    /// Sets a JSON body and the `Content-Type: application/json` header.
    pub fn with_json(self, body: &str) -> (r: Self)
        ensures
            r.status == self.status,
            headers_view(r.headers@) == headers_view(self.headers@).push(
                ("Content-Type"@, "application/json"@),
            ),
            r.body@ == encode_utf8(body@),
    {
        self.with_header("Content-Type", "application/json").with_body_str(body)
    }

    /// The value of the first header named `name`, ignoring case.
    pub fn header(&self, name: &str) -> (r: Option<&str>)
        ensures
            match r {
                Some(v) => self.header_spec(name@) == Some(v@),
                None => self.header_spec(name@) is None,
            },
    {
        lookup_header(&self.headers, name)
    }

    /// Whether the status is 2xx.
    pub fn is_success(&self) -> (b: bool)
        ensures
            b == (200 <= self.status && self.status < 300),
    {
        self.status >= 200 && self.status < 300
    }

    /// Whether the status is 3xx.
    pub fn is_redirect(&self) -> (b: bool)
        ensures
            b == (300 <= self.status && self.status < 400),
    {
        self.status >= 300 && self.status < 400
    }

    /// Whether the status is 4xx.
    pub fn is_client_error(&self) -> (b: bool)
        ensures
            b == (400 <= self.status && self.status < 500),
    {
        self.status >= 400 && self.status < 500
    }

    /// Whether the status is 5xx.
    pub fn is_server_error(&self) -> (b: bool)
        ensures
            b == (500 <= self.status && self.status < 600),
    {
        self.status >= 500 && self.status < 600
    }

    /// The body as UTF-8 text; an error when it is not valid UTF-8.
    pub fn body_str(&self) -> (r: Result<&str, std::str::Utf8Error>)
        ensures
            match r {
                Ok(s) => valid_utf8(self.body@) && s@ == decode_utf8(self.body@),
                Err(_) => !valid_utf8(self.body@),
            },
    {
        str_from_utf8(self.body.as_slice())
    }
}

impl Default for Response {
    fn default() -> (r: Self)
        ensures
            r.status == 200,
            r.headers@.len() == 0,
            r.body@.len() == 0,
    {
        Self::ok()
    }
}

} // verus!
