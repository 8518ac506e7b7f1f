use vstd::prelude::*;
use crate::text::{
    char_is_space, char_vec, find_between, find_char, is_space, lemma_find_between,
    parse_decimal, u64_of,
};

verus! {

/// The HTTP methods that the server answers.
#[derive(Debug, Clone, Copy, PartialEq, Eq, Structural)]
pub enum Method {
    GET,
    POST,
}

/// The paths that the server answers.
#[derive(Debug, Clone, Copy, PartialEq, Eq, Structural)]
pub enum Path {
    /// `/chat`: forwards a prompt to the reasoning backend.
    Chat,
    /// `/`: health check.
    Root,
    /// `/favicon.ico`: always not found.
    Favicon,
}

/// A decoded request: the request line and the two headers of interest.
pub struct Request {
    pub method: Method,
    pub path: Path,
    /// The value of the last `X-Api-Key` header, if any.
    pub api_key: Option<String>,
    /// Everything after the blank line that ends the headers, present only
    /// when the declared length is positive.
    pub body: Option<String>,
    /// The number in the last `Content-Length` header, or 0 when there is
    /// none or it is not a decimal number that fits in 64 bits.
    pub content_length: u64,
}

pub struct RequestModel {
    pub method: Method,
    pub path: Path,
    pub api_key: Option<Seq<char>>,
    pub body: Option<Seq<char>>,
    pub content_length: u64,
}

pub open spec fn opt_text(o: Option<String>) -> Option<Seq<char>> {
    match o {
        Some(s) => Some(s@),
        None => None,
    }
}

impl View for Request {
    type V = RequestModel;

    open spec fn view(&self) -> RequestModel {
        RequestModel {
            method: self.method,
            path: self.path,
            api_key: opt_text(self.api_key),
            body: opt_text(self.body),
            content_length: self.content_length,
        }
    }
}

pub open spec fn method_of(t: Seq<char>) -> Option<Method> {
    if t == seq!['G', 'E', 'T'] {
        Some(Method::GET)
    } else if t == seq!['P', 'O', 'S', 'T'] {
        Some(Method::POST)
    } else {
        None
    }
}

pub open spec fn path_of(t: Seq<char>) -> Option<Path> {
    if t == seq!['/', 'c', 'h', 'a', 't'] {
        Some(Path::Chat)
    } else if t == seq!['/'] {
        Some(Path::Root)
    } else if t == seq!['/', 'f', 'a', 'v', 'i', 'c', 'o', 'n', '.', 'i', 'c', 'o'] {
        Some(Path::Favicon)
    } else {
        None
    }
}

/// The first index in `i..end` that holds no white space, or `end`.
pub open spec fn skip_space(s: Seq<char>, i: int, end: int) -> int
    decreases end - i,
{
    if i >= end {
        end
    } else if !is_space(s[i]) {
        i
    } else {
        skip_space(s, i + 1, end)
    }
}

/// The first index in `i..end` that holds white space, or `end`.
pub open spec fn token_end(s: Seq<char>, i: int, end: int) -> int
    decreases end - i,
{
    if i >= end {
        end
    } else if is_space(s[i]) {
        i
    } else {
        token_end(s, i + 1, end)
    }
}

/// `k` moved back over the white space that ends `s[a..k]`.
pub open spec fn trim_back(s: Seq<char>, a: int, k: int) -> int
    decreases k - a,
{
    if k > a && is_space(s[k - 1]) {
        trim_back(s, a, k - 1)
    } else {
        k
    }
}

/// The end of the text of the line that starts at `i`: its line break is
/// `\n` or `\r\n`, and the last line may have none.
pub open spec fn line_end(s: Seq<char>, i: int) -> int {
    let b = find_between(s, '\n', i, s.len() as int);
    if b < s.len() && b > i && s[b - 1] == '\r' {
        b - 1
    } else {
        b
    }
}

/// Where the line after the one that starts at `i` starts.
pub open spec fn next_line(s: Seq<char>, i: int) -> int {
    let b = find_between(s, '\n', i, s.len() as int);
    if b < s.len() {
        b + 1
    } else {
        s.len() as int
    }
}

/// Whether `a` equals the lower-case ASCII character `p`, ignoring ASCII case.
pub open spec fn same_letter(a: char, p: char) -> bool {
    a == p || ('a' <= p && p <= 'z' && a as u32 + 32 == p as u32)
}

/// Whether `s[i..end]` starts with the lower-case pattern `p`, ignoring ASCII case.
pub open spec fn starts_with_ci(s: Seq<char>, i: int, end: int, p: Seq<char>) -> bool {
    end - i >= p.len() && forall|j: int| 0 <= j < p.len() ==> same_letter(s[i + j], #[trigger] p[j])
}

pub open spec fn api_key_header() -> Seq<char> {
    seq!['x', '-', 'a', 'p', 'i', '-', 'k', 'e', 'y', ':']
}

pub open spec fn content_length_header() -> Seq<char> {
    seq!['c', 'o', 'n', 't', 'e', 'n', 't', '-', 'l', 'e', 'n', 'g', 't', 'h', ':']
}

/// The value of a header whose name, colon included, ends at `start` in the
/// line ending at `end`: the rest of the line, with its white space trimmed
/// on both sides.
pub open spec fn header_value(s: Seq<char>, start: int, end: int) -> Seq<char> {
    let a = skip_space(s, start, end);
    s.subrange(a, trim_back(s, a, end))
}

/// The number a `Content-Length` value declares: 0 unless it is a decimal
/// number that fits in 64 bits.
pub open spec fn length_of(v: Seq<char>) -> u64 {
    match u64_of(v) {
        Some(n) => n,
        None => 0,
    }
}

/// Scans the header lines from `i` on, up to the first empty line; returns the
/// last API key seen, the last length declared, and where the
/// text after the header section starts.
pub open spec fn scan_headers(s: Seq<char>, i: int, key: Option<Seq<char>>, length: u64) -> (
    Option<Seq<char>>,
    u64,
    int,
)
    decreases s.len() - i,
{
    if i < 0 || i >= s.len() {
        (key, length, s.len() as int)
    } else {
        let e = line_end(s, i);
        let nx = next_line(s, i);
        proof {
            lemma_find_between(s, '\n', i, s.len() as int);
        }
        if e == i {
            (key, length, nx)
        } else {
            let key2 = if starts_with_ci(s, i, e, api_key_header()) {
                Some(header_value(s, i + 10, e))
            } else {
                key
            };
            let length2 = if starts_with_ci(s, i, e, content_length_header()) {
                length_of(header_value(s, i + 15, e))
            } else {
                length
            };
            scan_headers(s, nx, key2, length2)
        }
    }
}

/// The method and path of the request line: its first two white-space
/// separated words.
pub open spec fn request_line_of(s: Seq<char>) -> Option<(Method, Path)> {
    let e = line_end(s, 0);
    let a1 = skip_space(s, 0, e);
    let b1 = token_end(s, a1, e);
    let a2 = skip_space(s, b1, e);
    let b2 = token_end(s, a2, e);
    if s.len() == 0 || a1 == e || a2 == e {
        None
    } else {
        match (method_of(s.subrange(a1, b1)), path_of(s.subrange(a2, b2))) {
            (Some(m), Some(p)) => Some((m, p)),
            _ => None,
        }
    }
}

/// What a request text decodes to.
pub open spec fn request_of(s: Seq<char>) -> Option<RequestModel> {
    match request_line_of(s) {
        None => None,
        Some((m, p)) => {
            let scan = scan_headers(s, next_line(s, 0), None, 0);
            Some(
                RequestModel {
                    method: m,
                    path: p,
                    api_key: scan.0,
                    body: if scan.1 > 0 {
                        Some(s.subrange(scan.2, s.len() as int))
                    } else {
                        None
                    },
                    content_length: scan.1,
                },
            )
        },
    }
}

proof fn lemma_skip_space(s: Seq<char>, i: int, end: int)
    requires
        0 <= i <= end <= s.len(),
    ensures
        i <= skip_space(s, i, end) <= end,
    decreases end - i,
{
    if i < end && is_space(s[i]) {
        lemma_skip_space(s, i + 1, end);
    }
}

proof fn lemma_token_end(s: Seq<char>, i: int, end: int)
    requires
        0 <= i <= end <= s.len(),
    ensures
        i <= token_end(s, i, end) <= end,
    decreases end - i,
{
    if i < end && !is_space(s[i]) {
        lemma_token_end(s, i + 1, end);
    }
}

proof fn lemma_trim_back(s: Seq<char>, a: int, k: int)
    requires
        0 <= a <= k <= s.len(),
    ensures
        a <= trim_back(s, a, k) <= k,
    decreases k - a,
{
    if k > a && is_space(s[k - 1]) {
        lemma_trim_back(s, a, k - 1);
    }
}

fn skip_space_in(v: &Vec<char>, start: usize, end: usize) -> (r: usize)
    requires
        start <= end <= v@.len(),
    ensures
        r == skip_space(v@, start as int, end as int),
        start <= r <= end,
{
    let mut i: usize = start;
    while i < end
        invariant
            start <= i <= end <= v@.len(),
            skip_space(v@, i as int, end as int) == skip_space(v@, start as int, end as int),
        decreases end - i,
    {
        if !char_is_space(v[i]) {
            return i;
        }
        i = i + 1;
    }
    i
}

fn token_end_in(v: &Vec<char>, start: usize, end: usize) -> (r: usize)
    requires
        start <= end <= v@.len(),
    ensures
        r == token_end(v@, start as int, end as int),
        start <= r <= end,
{
    let mut i: usize = start;
    while i < end
        invariant
            start <= i <= end <= v@.len(),
            token_end(v@, i as int, end as int) == token_end(v@, start as int, end as int),
        decreases end - i,
    {
        if char_is_space(v[i]) {
            return i;
        }
        i = i + 1;
    }
    i
}

fn trim_back_in(v: &Vec<char>, a: usize, k: usize) -> (r: usize)
    requires
        a <= k <= v@.len(),
    ensures
        r == trim_back(v@, a as int, k as int),
        a <= r <= k,
{
    let mut j: usize = k;
    while j > a && char_is_space(v[j - 1])
        invariant
            a <= j <= k <= v@.len(),
            trim_back(v@, a as int, j as int) == trim_back(v@, a as int, k as int),
        decreases j - a,
    {
        j = j - 1;
    }
    j
}

/// The end of the text of the line starting at `i`, and the start of the next.
fn line_bounds(v: &Vec<char>, i: usize) -> (r: (usize, usize))
    requires
        i <= v@.len(),
    ensures
        r.0 == line_end(v@, i as int),
        r.1 == next_line(v@, i as int),
        i <= r.0 <= v@.len(),
        i <= r.1 <= v@.len(),
        i < v@.len() ==> i < r.1,
{
    let n = v.len();
    let b = find_char(v, '\n', i, n);
    let e = if b < n && b > i && v[b - 1] == '\r' {
        b - 1
    } else {
        b
    };
    let nx = if b < n {
        b + 1
    } else {
        n
    };
    (e, nx)
}

/// Whether `a` equals the lower-case ASCII character `p`, ignoring ASCII case.
pub fn letter_matches(a: char, p: char) -> (r: bool)
    ensures
        r == same_letter(a, p),
{
    a == p || ('a' <= p && p <= 'z' && a as u32 + 32 == p as u32)
}

fn starts_with_ci_in(v: &Vec<char>, i: usize, end: usize, p: &Vec<char>) -> (r: bool)
    requires
        i <= end <= v@.len(),
    ensures
        r == starts_with_ci(v@, i as int, end as int, p@),
{
    if end - i < p.len() {
        return false;
    }
    let mut j: usize = 0;
    while j < p.len()
        invariant
            j <= p@.len(),
            end - i >= p@.len(),
            i <= end <= v@.len(),
            forall|t: int| 0 <= t < j ==> same_letter(v@[i + t], #[trigger] p@[t]),
        decreases p@.len() - j,
    {
        if !letter_matches(v[i + j], p[j]) {
            return false;
        }
        j = j + 1;
    }
    true
}

/// Whether `v[start..end]` spells the characters `p`.
fn spells(v: &Vec<char>, start: usize, end: usize, p: &Vec<char>) -> (r: bool)
    requires
        start <= end <= v@.len(),
    ensures
        r == (v@.subrange(start as int, end as int) == p@),
{
    if end - start != p.len() {
        return false;
    }
    let mut j: usize = 0;
    while j < p.len()
        invariant
            j <= p@.len(),
            end - start == p@.len(),
            start <= end <= v@.len(),
            forall|t: int| 0 <= t < j ==> v@[start + t] == p@[t],
        decreases p@.len() - j,
    {
        if v[start + j] != p[j] {
            return false;
        }
        j = j + 1;
    }
    assert(v@.subrange(start as int, end as int) =~= p@);
    true
}

fn method_in(v: &Vec<char>, start: usize, end: usize) -> (r: Option<Method>)
    requires
        start <= end <= v@.len(),
    ensures
        r == method_of(v@.subrange(start as int, end as int)),
{
    if spells(v, start, end, &vec!['G', 'E', 'T']) {
        Some(Method::GET)
    } else if spells(v, start, end, &vec!['P', 'O', 'S', 'T']) {
        Some(Method::POST)
    } else {
        None
    }
}

fn path_in(v: &Vec<char>, start: usize, end: usize) -> (r: Option<Path>)
    requires
        start <= end <= v@.len(),
    ensures
        r == path_of(v@.subrange(start as int, end as int)),
{
    let chat = vec!['/', 'c', 'h', 'a', 't'];
    let root = vec!['/'];
    let favicon = vec!['/', 'f', 'a', 'v', 'i', 'c', 'o', 'n', '.', 'i', 'c', 'o'];
    assert(chat@ =~= seq!['/', 'c', 'h', 'a', 't']);
    assert(root@ =~= seq!['/']);
    assert(favicon@ =~= seq!['/', 'f', 'a', 'v', 'i', 'c', 'o', 'n', '.', 'i', 'c', 'o']);
    if spells(v, start, end, &chat) {
        Some(Path::Chat)
    } else if spells(v, start, end, &root) {
        Some(Path::Root)
    } else if spells(v, start, end, &favicon) {
        Some(Path::Favicon)
    } else {
        None
    }
}

pub open spec fn range_text(s: Seq<char>, r: Option<(usize, usize)>) -> Option<Seq<char>> {
    match r {
        Some((a, b)) => Some(s.subrange(a as int, b as int)),
        None => None,
    }
}

pub open spec fn range_ok(s: Seq<char>, r: Option<(usize, usize)>) -> bool {
    match r {
        Some((a, b)) => a <= b <= s.len(),
        None => true,
    }
}

/// Where the value of a header starts and ends (see `header_value`).
fn header_value_range(v: &Vec<char>, start: usize, end: usize) -> (r: (usize, usize))
    requires
        start <= end <= v@.len(),
    ensures
        r.0 <= r.1 <= v@.len(),
        v@.subrange(r.0 as int, r.1 as int) == header_value(v@, start as int, end as int),
{
    let a = skip_space_in(v, start, end);
    let b = trim_back_in(v, a, end);
    (a, b)
}

/// Scans the header lines from `start` on (see `scan_headers`); the key is
/// returned as the range of `v` that holds it.
fn scan_header_lines(v: &Vec<char>, start: usize) -> (r: (Option<(usize, usize)>, u64, usize))
    requires
        start <= v@.len(),
    ensures
        range_ok(v@, r.0),
        r.2 <= v@.len(),
        (range_text(v@, r.0), r.1, r.2 as int) == scan_headers(v@, start as int, None, 0),
{
    let api = vec!['x', '-', 'a', 'p', 'i', '-', 'k', 'e', 'y', ':'];
    let pattern = vec!['c', 'o', 'n', 't', 'e', 'n', 't', '-', 'l', 'e', 'n', 'g', 't', 'h', ':'];
    assert(api@ =~= api_key_header());
    assert(pattern@ =~= content_length_header());
    let n = v.len();
    let mut i: usize = start;
    let mut key: Option<(usize, usize)> = None;
    let mut length: u64 = 0;
    while i < n
        invariant
            i <= n == v@.len(),
            api@ == api_key_header(),
            pattern@ == content_length_header(),
            range_ok(v@, key),
            scan_headers(v@, i as int, range_text(v@, key), length) == scan_headers(
                v@,
                start as int,
                None,
                0,
            ),
        decreases n - i,
    {
        let (e, nx) = line_bounds(v, i);
        if e == i {
            return (key, length, nx);
        }
        if starts_with_ci_in(v, i, e, &api) {
            key = Some(header_value_range(v, i + 10, e));
        }
        if starts_with_ci_in(v, i, e, &pattern) {
            let (a, b) = header_value_range(v, i + 15, e);
            length = match parse_decimal(v, a, b) {
                Some(x) => x,
                None => 0,
            };
        }
        i = nx;
    }
    (key, length, n)
}

impl Request {
    /// Decodes a request text: the request line must name a known method and
    /// a known path; of the headers, which end at the first empty line, only
    /// `X-Api-Key` and `Content-Length` are read, without regard to ASCII
    /// case; the body is the text after the headers, verbatim, when the length
    /// is positive.
    pub fn parse(request_str: &str) -> (r: Option<Request>)
        ensures
            match r {
                Some(q) => request_of(request_str@) == Some(q@),
                None => request_of(request_str@) is None,
            },
    {
        let v = char_vec(request_str);
        let n = v.len();
        if n == 0 {
            return None;
        }
        let (e, nx) = line_bounds(&v, 0);
        let a1 = skip_space_in(&v, 0, e);
        let b1 = token_end_in(&v, a1, e);
        let a2 = skip_space_in(&v, b1, e);
        let b2 = token_end_in(&v, a2, e);
        if a1 == e || a2 == e {
            return None;
        }
        let method = match method_in(&v, a1, b1) {
            Some(m) => m,
            None => {
                return None;
            },
        };
        let path = match path_in(&v, a2, b2) {
            Some(p) => p,
            None => {
                return None;
            },
        };
        let (key, content_length, body_start) = scan_header_lines(&v, nx);
        let api_key = match key {
            Some((a, b)) => Some(request_str.substring_char(a, b).to_owned()),
            None => None,
        };
        let body = if content_length > 0 {
            Some(request_str.substring_char(body_start, n).to_owned())
        } else {
            None
        };
        Some(Request { method, path, api_key, body, content_length })
    }
}

impl Method {
    /// The method that `s` names exactly, if it is one the server answers.
    pub fn from_str(s: &str) -> (r: Option<Method>)
        ensures
            r == method_of(s@),
    {
        let v = char_vec(s);
        assert(v@.subrange(0, v@.len() as int) == v@);
        method_in(&v, 0, v.len())
    }
}

impl Path {
    /// The path that `s` names exactly, if it is one the server answers.
    pub fn from_str(s: &str) -> (r: Option<Path>)
        ensures
            r == path_of(s@),
    {
        let v = char_vec(s);
        assert(v@.subrange(0, v@.len() as int) == v@);
        path_in(&v, 0, v.len())
    }
}

} // verus!
