//! The wire-level model of one API operation: the endpoint description the
//! schema types produce, the mutable request the middleware works on, and the
//! response the transport hands back.

use vstd::prelude::*;

use crate::text::push_char;

verus! {

/// The HTTP method of an endpoint; fixed per endpoint type.
#[derive(Clone, Copy, Debug, PartialEq, Eq, Structural)]
pub enum Method {
    Get,
    Put,
    Delete,
}

/// One query parameter. A `value` of `None` is a presence-only flag: the key
/// appears in the query string with no `=` and no value.
#[derive(Debug)]
pub struct QueryPair {
    pub key: String,
    pub value: Option<String>,
}

/// One header field.
#[derive(Debug)]
pub struct HeaderPair {
    pub name: String,
    pub value: String,
}

/// The view of an `Option<String>` as an optional character sequence.
pub open spec fn ov(o: Option<String>) -> Option<Seq<char>> {
    match o {
        Some(s) => Some(s@),
        None => None,
    }
}

impl View for QueryPair {
    type V = (Seq<char>, Option<Seq<char>>);

    open spec fn view(&self) -> Self::V {
        (self.key@, ov(self.value))
    }
}

impl View for HeaderPair {
    type V = (Seq<char>, Seq<char>);

    open spec fn view(&self) -> Self::V {
        (self.name@, self.value@)
    }
}

/// The views of a sequence of query pairs.
pub open spec fn qview(s: Seq<QueryPair>) -> Seq<(Seq<char>, Option<Seq<char>>)> {
    s.map(|i: int, p: QueryPair| p@)
}

/// The views of a sequence of header fields.
pub open spec fn hview(s: Seq<HeaderPair>) -> Seq<(Seq<char>, Seq<char>)> {
    s.map(|i: int, h: HeaderPair| h@)
}

/// The body declared by an endpoint: absent, a structured payload already
/// serialized to bytes, or raw bytes that must be passed through unmodified.
#[derive(Debug)]
pub enum RequestBody {
    Empty,
    Structured(Vec<u8>),
    Raw(Vec<u8>),
}

impl RequestBody {
    /// The bytes this body puts on the wire.
    pub open spec fn bytes(&self) -> Seq<u8> {
        match self {
            RequestBody::Empty => Seq::<u8>::empty(),
            RequestBody::Structured(b) => b@,
            RequestBody::Raw(b) => b@,
        }
    }
}

/// A description of one API operation, consumed exactly once by the
/// execution layer.
#[derive(Debug)]
pub struct Endpoint {
    /// The path relative to the API root, without a leading slash,
    /// e.g. `kv/my-key`.
    pub path: String,
    pub method: Method,
    pub body: RequestBody,
    /// The query parameters whose values the caller set.
    pub query: Vec<QueryPair>,
}

/// An outgoing request under construction: what the middleware mutates and
/// the transport finally dispatches.
#[derive(Debug)]
pub struct RequestParts {
    pub method: Method,
    /// The absolute path, with a leading slash.
    pub path: String,
    pub query: Vec<QueryPair>,
    pub headers: Vec<HeaderPair>,
    pub body: Vec<u8>,
}

/// A response obtained from the transport, before classification.
#[derive(Debug)]
pub struct ResponseParts {
    pub status: u16,
    pub headers: Vec<HeaderPair>,
    pub body: Vec<u8>,
}

// ------------------------------------------------------------------
// Header lookup (ASCII-case-insensitive, as HTTP field names are).
// ------------------------------------------------------------------

/// `c` with an ASCII uppercase letter folded to lowercase.
pub open spec fn lower_char(c: char) -> char {
    if 65 <= (c as u32) && (c as u32) <= 90 {
        (((c as u8) + 32) as u8) as char
    } else {
        c
    }
}

/// `s` with ASCII uppercase letters folded to lowercase.
pub open spec fn lower_chars(s: Seq<char>) -> Seq<char> {
    s.map(|i: int, c: char| lower_char(c))
}

/// Whether two header names denote the same field.
pub open spec fn names_match(a: Seq<char>, b: Seq<char>) -> bool {
    lower_chars(a) == lower_chars(b)
}

/// The value of the first header field named `name`, if any.
pub open spec fn header_lookup(hs: Seq<(Seq<char>, Seq<char>)>, name: Seq<char>) -> Option<
    Seq<char>,
>
    decreases hs.len(),
{
    if hs.len() == 0 {
        None
    } else if names_match(hs[0].0, name) {
        Some(hs[0].1)
    } else {
        header_lookup(hs.drop_first(), name)
    }
}

/// How many header fields in `hs` are named `name`.
pub open spec fn count_matching(hs: Seq<(Seq<char>, Seq<char>)>, name: Seq<char>) -> nat
    decreases hs.len(),
{
    if hs.len() == 0 {
        0
    } else {
        (if names_match(hs[0].0, name) {
            1nat
        } else {
            0nat
        }) + count_matching(hs.drop_first(), name)
    }
}

/// `c` with an ASCII uppercase letter folded to lowercase.
fn lower_char_exec(c: char) -> (r: char)
    ensures
        r == lower_char(c),
{
    let u = c as u32;
    if 65 <= u && u <= 90 {
        ((c as u8) + 32) as char
    } else {
        c
    }
}

/// Whether `a` and `b` denote the same header field.
fn names_match_exec(a: &str, b: &str) -> (r: bool)
    ensures
        r == names_match(a@, b@),
{
    let alen = a.unicode_len();
    let blen = b.unicode_len();
    if alen != blen {
        proof {
            assert(lower_chars(a@).len() == a@.len());
            assert(lower_chars(b@).len() == b@.len());
        }
        return false;
    }
    let mut i: usize = 0;
    while i < alen
        invariant
            i <= alen,
            alen == a@.len(),
            alen == b@.len(),
            forall|j: int| 0 <= j < i ==> lower_char(a@[j]) == lower_char(b@[j]),
        decreases alen - i,
    {
        let ca = a.get_char(i);
        let cb = b.get_char(i);
        if lower_char_exec(ca) != lower_char_exec(cb) {
            proof {
                assert(lower_chars(a@)[i as int] != lower_chars(b@)[i as int]);
            }
            return false;
        }
        i = i + 1;
    }
    proof {
        assert(lower_chars(a@) =~= lower_chars(b@));
    }
    true
}

/// Finds the first header field named `name` and returns a copy of its value.
pub fn find_header(headers: &Vec<HeaderPair>, name: &str) -> (r: Option<String>)
    ensures
        ov(r) == header_lookup(hview(headers@), name@),
{
    let n = headers.len();
    let mut i: usize = 0;
    proof {
        assert(hview(headers@).skip(0) =~= hview(headers@));
    }
    while i < n
        invariant
            i <= n,
            n == headers@.len(),
            header_lookup(hview(headers@), name@) == header_lookup(
                hview(headers@).skip(i as int),
                name@,
            ),
        decreases n - i,
    {
        if names_match_exec(headers[i].name.as_str(), name) {
            proof {
                assert(hview(headers@).skip(i as int)[0] == headers@[i as int]@);
            }
            return Some(headers[i].value.clone());
        }
        proof {
            assert(hview(headers@).skip(i as int)[0] == headers@[i as int]@);
            assert(hview(headers@).skip(i as int).drop_first() =~= hview(headers@).skip(
                i as int + 1,
            ));
        }
        i = i + 1;
    }
    proof {
        assert(hview(headers@).skip(n as int).len() == 0);
    }
    None
}

// ------------------------------------------------------------------
// Rendering the request target: percent-encoded path and query string.
// ------------------------------------------------------------------

/// Characters that never need escaping in a URL.
pub open spec fn is_unreserved(c: char) -> bool {
    let u = c as u32;
    (48 <= u && u <= 57) || (65 <= u && u <= 90) || (97 <= u && u <= 122) || c == '-' || c == '.'
        || c == '_' || c == '~'
}

/// The uppercase hexadecimal digit character for `d`.
pub open spec fn hex_char(d: u8) -> char
    recommends
        d < 16,
{
    if d < 10 {
        crate::text::digit_char(d)
    } else if d == 10 {
        'A'
    } else if d == 11 {
        'B'
    } else if d == 12 {
        'C'
    } else if d == 13 {
        'D'
    } else if d == 14 {
        'E'
    } else {
        'F'
    }
}

/// The `%XX` escape of an ASCII character.
pub open spec fn pct_encoded(c: char) -> Seq<char>
    recommends
        (c as u32) < 128,
{
    seq!['%', hex_char(((c as u32) / 16) as u8), hex_char(((c as u32) % 16) as u8)]
}

/// How one character appears in the rendered URL. Unreserved characters (and
/// the path separator, when `keep_slash` is set) stay as they are; other
/// ASCII characters are percent-escaped; characters outside ASCII pass
/// through for the transport's URL layer to encode byte-wise.
pub open spec fn enc_char(c: char, keep_slash: bool) -> Seq<char> {
    if is_unreserved(c) || (c as u32) > 127 || (keep_slash && c == '/') {
        seq![c]
    } else {
        pct_encoded(c)
    }
}

/// The rendered form of a whole string.
pub open spec fn enc_chars(s: Seq<char>, keep_slash: bool) -> Seq<char>
    decreases s.len(),
{
    if s.len() == 0 {
        Seq::<char>::empty()
    } else {
        enc_chars(s.drop_last(), keep_slash) + enc_char(s.last(), keep_slash)
    }
}

/// The rendered form of one query pair: `key=value`, or the bare key for a
/// presence-only flag.
pub open spec fn pair_str(p: (Seq<char>, Option<Seq<char>>)) -> Seq<char> {
    enc_chars(p.0, false) + match p.1 {
        Some(v) => seq!['='] + enc_chars(v, false),
        None => Seq::<char>::empty(),
    }
}

/// The rendered query string: pairs joined by `&`.
pub open spec fn query_string(ps: Seq<(Seq<char>, Option<Seq<char>>)>) -> Seq<char>
    decreases ps.len(),
{
    if ps.len() == 0 {
        Seq::<char>::empty()
    } else if ps.len() == 1 {
        pair_str(ps[0])
    } else {
        query_string(ps.drop_last()) + seq!['&'] + pair_str(ps.last())
    }
}

/// The full request target: the encoded path, then `?` and the query string
/// when any query parameter is present.
pub open spec fn request_target(path: Seq<char>, q: Seq<(Seq<char>, Option<Seq<char>>)>) -> Seq<
    char,
> {
    enc_chars(path, true) + if q.len() == 0 {
        Seq::<char>::empty()
    } else {
        seq!['?'] + query_string(q)
    }
}

/// The uppercase hexadecimal digit character for `d`.
fn hex_char_exec(d: u8) -> (c: char)
    requires
        d < 16,
    ensures
        c == hex_char(d),
{
    match d {
        0 => '0',
        1 => '1',
        2 => '2',
        3 => '3',
        4 => '4',
        5 => '5',
        6 => '6',
        7 => '7',
        8 => '8',
        9 => '9',
        10 => 'A',
        11 => 'B',
        12 => 'C',
        13 => 'D',
        14 => 'E',
        _ => 'F',
    }
}

/// Characters that never need escaping in a URL.
fn is_unreserved_exec(c: char) -> (r: bool)
    ensures
        r == is_unreserved(c),
{
    let u = c as u32;
    (48 <= u && u <= 57) || (65 <= u && u <= 90) || (97 <= u && u <= 122) || c == '-' || c == '.'
        || c == '_' || c == '~'
}

/// Appends the rendered form of `s` to `out`.
fn append_encoded(out: &mut String, s: &str, keep_slash: bool)
    ensures
        final(out)@ == old(out)@ + enc_chars(s@, keep_slash),
{
    let len = s.unicode_len();
    let mut i: usize = 0;
    proof {
        assert(s@.take(0) =~= Seq::<char>::empty());
        assert(old(out)@ + enc_chars(s@.take(0), keep_slash) =~= old(out)@);
    }
    while i < len
        invariant
            i <= len,
            len == s@.len(),
            out@ == old(out)@ + enc_chars(s@.take(i as int), keep_slash),
        decreases len - i,
    {
        let c = s.get_char(i);
        let u = c as u32;
        let ghost pre = out@;
        if is_unreserved_exec(c) || u > 127 || (keep_slash && c == '/') {
            push_char(out, c);
            proof {
                assert(out@ =~= pre + enc_char(c, keep_slash));
            }
        } else {
            push_char(out, '%');
            push_char(out, hex_char_exec((u / 16) as u8));
            push_char(out, hex_char_exec((u % 16) as u8));
            proof {
                assert(out@ =~= pre + pct_encoded(c));
            }
        }
        proof {
            assert(s@.take(i + 1).drop_last() =~= s@.take(i as int));
            assert(s@.take(i + 1).last() == s@[i as int]);
            assert(enc_chars(s@.take(i + 1), keep_slash) == enc_chars(s@.take(i as int), keep_slash)
                + enc_char(s@[i as int], keep_slash));
            assert(out@ =~= old(out)@ + enc_chars(s@.take(i + 1), keep_slash));
        }
        i = i + 1;
    }
    proof {
        assert(s@.take(len as int) =~= s@);
    }
}

// ------------------------------------------------------------------
// Building declared query-parameter lists.
// ------------------------------------------------------------------

/// The query pairs contributed by one optional parameter: a single pair when
/// the caller set a value, none otherwise.
pub open spec fn opt_pair(key: Seq<char>, v: Option<Seq<char>>) -> Seq<
    (Seq<char>, Option<Seq<char>>),
> {
    match v {
        Some(s) => seq![(key, Some(s))],
        None => Seq::<(Seq<char>, Option<Seq<char>>)>::empty(),
    }
}

/// An optional boolean parameter value, rendered.
pub open spec fn obv(o: Option<bool>) -> Option<Seq<char>> {
    match o {
        Some(b) => Some(crate::text::bool_str(b)),
        None => None,
    }
}

/// An optional integer parameter value, rendered in decimal.
pub open spec fn ouv(o: Option<u64>) -> Option<Seq<char>> {
    match o {
        Some(n) => Some(crate::text::dec_str(n as nat)),
        None => None,
    }
}

/// Appends the pair for an optional string parameter.
pub fn push_opt(q: &mut Vec<QueryPair>, key: &str, v: &Option<String>)
    ensures
        qview(final(q)@) == qview(old(q)@) + opt_pair(key@, ov(*v)),
{
    match v {
        Some(s) => {
            q.push(QueryPair { key: key.to_owned(), value: Some(s.clone()) });
        },
        None => {},
    }
    proof {
        assert(qview(q@) =~= qview(old(q)@) + opt_pair(key@, ov(*v)));
    }
}

/// Appends the pair for an optional boolean parameter.
pub fn push_opt_bool(q: &mut Vec<QueryPair>, key: &str, v: &Option<bool>)
    ensures
        qview(final(q)@) == qview(old(q)@) + opt_pair(key@, obv(*v)),
{
    match v {
        Some(b) => {
            q.push(QueryPair { key: key.to_owned(), value: Some(crate::text::bool_to_string(*b)) });
        },
        None => {},
    }
    proof {
        assert(qview(q@) =~= qview(old(q)@) + opt_pair(key@, obv(*v)));
    }
}

/// Appends the pair for an optional integer parameter.
pub fn push_opt_u64(q: &mut Vec<QueryPair>, key: &str, v: &Option<u64>)
    ensures
        qview(final(q)@) == qview(old(q)@) + opt_pair(key@, ouv(*v)),
{
    match v {
        Some(n) => {
            q.push(QueryPair { key: key.to_owned(), value: Some(crate::text::u64_to_string(*n)) });
        },
        None => {},
    }
    proof {
        assert(qview(q@) =~= qview(old(q)@) + opt_pair(key@, ouv(*v)));
    }
}

/// Appends the pair for a boolean parameter that is always sent.
pub fn push_bool(q: &mut Vec<QueryPair>, key: &str, v: bool)
    ensures
        qview(final(q)@) == qview(old(q)@) + seq![(key@, Some(crate::text::bool_str(v)))],
{
    q.push(QueryPair { key: key.to_owned(), value: Some(crate::text::bool_to_string(v)) });
    proof {
        assert(qview(q@) =~= qview(old(q)@) + seq![(key@, Some(crate::text::bool_str(v)))]);
    }
}

/// Renders the target (path and query string) that `req` is dispatched to,
/// relative to the client's base address.
pub fn render_target(req: &RequestParts) -> (s: String)
    ensures
        s@ == request_target(req.path@, qview(req.query@)),
{
    let mut out = String::new();
    append_encoded(&mut out, req.path.as_str(), true);
    let n = req.query.len();
    if n > 0 {
        push_char(&mut out, '?');
        let ghost base = out@;
        let mut i: usize = 0;
        proof {
            assert(qview(req.query@).take(0) =~= Seq::<(Seq<char>, Option<Seq<char>>)>::empty());
            assert(base + query_string(qview(req.query@).take(0)) =~= base);
        }
        while i < n
            invariant
                i <= n,
                n == req.query@.len(),
                out@ == base + query_string(qview(req.query@).take(i as int)),
            decreases n - i,
        {
            if i > 0 {
                push_char(&mut out, '&');
            }
            let ghost mid = out@;
            append_encoded(&mut out, req.query[i].key.as_str(), false);
            match &req.query[i].value {
                Some(v) => {
                    push_char(&mut out, '=');
                    append_encoded(&mut out, v.as_str(), false);
                },
                None => {},
            }
            proof {
                let ghost qv = qview(req.query@);
                assert(qv[i as int] == req.query@[i as int]@);
                assert(out@ =~= mid + pair_str(qv[i as int]));
                assert(qv.take(i + 1).drop_last() =~= qv.take(i as int));
                assert(qv.take(i + 1).last() == qv[i as int]);
                if i == 0 {
                    assert(query_string(qv.take(1)) == pair_str(qv[0]));
                    assert(out@ =~= base + query_string(qv.take(i + 1)));
                } else {
                    assert(query_string(qv.take(i + 1)) == query_string(qv.take(i as int))
                        + seq!['&'] + pair_str(qv[i as int]));
                    assert(out@ =~= base + query_string(qv.take(i + 1)));
                }
            }
            i = i + 1;
        }
        proof {
            assert(qview(req.query@).take(n as int) =~= qview(req.query@));
        }
    }
    out
}

} // verus!
