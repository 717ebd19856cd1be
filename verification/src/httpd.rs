//! The older HTTP daemon interface: its configuration, the native error
//! codes it maps handlers' errors to, the reading errors of a request, and
//! what sending a response hands to the native server.

use vstd::prelude::*;

use crate::http::{same_name, status_text};
use crate::text::{has_nul, is_c_compatible, push_char, push_decimal, push_str};

verus! {

/// The daemon's configuration.
#[derive(Debug, Clone, Copy, PartialEq, Eq, Structural)]
pub struct Configuration {
    pub http_port: u16,
    pub https_port: u16,
    pub max_uri_handlers: u16,
}

impl Default for Configuration {
    /// Ports 80 and 443 and eight URI handlers.
    fn default() -> (c: Self)
        ensures
            c == (Configuration { http_port: 80, https_port: 443, max_uri_handlers: 8 }),
    {
        Configuration { http_port: 80, https_port: 443, max_uri_handlers: 8 }
    }
}

/// An HTTP error a handler can be installed for.
#[derive(Debug, Clone, Copy, PartialEq, Eq, Structural)]
pub enum HttpdError {
    InternalServerError,
    MethodNotImplemented,
    VersionNotSupported,
    BadRequest,
    Unauthorized,
    Forbidden,
    NotFound,
    MethodNotAllowed,
    ReqTimeout,
    LengthRequired,
    UriTooLong,
    ReqHdrFieldsTooLarge,
}

/// The native code of an error (`httpd_err_code_t`): 500, 501, 505, 400,
/// 401, 403, 404, 405, 408, 411, 414 and 431 are codes 0 to 11, in that
/// order.
pub open spec fn httpd_error_code(e: HttpdError) -> u32 {
    match e {
        HttpdError::InternalServerError => 0,
        HttpdError::MethodNotImplemented => 1,
        HttpdError::VersionNotSupported => 2,
        HttpdError::BadRequest => 3,
        HttpdError::Unauthorized => 4,
        HttpdError::Forbidden => 5,
        HttpdError::NotFound => 6,
        HttpdError::MethodNotAllowed => 7,
        HttpdError::ReqTimeout => 8,
        HttpdError::LengthRequired => 9,
        HttpdError::UriTooLong => 10,
        HttpdError::ReqHdrFieldsTooLarge => 11,
    }
}

/// The HTTP status of an error.
pub open spec fn httpd_error_status(e: HttpdError) -> u16 {
    match e {
        HttpdError::InternalServerError => 500,
        HttpdError::MethodNotImplemented => 501,
        HttpdError::VersionNotSupported => 505,
        HttpdError::BadRequest => 400,
        HttpdError::Unauthorized => 401,
        HttpdError::Forbidden => 403,
        HttpdError::NotFound => 404,
        HttpdError::MethodNotAllowed => 405,
        HttpdError::ReqTimeout => 408,
        HttpdError::LengthRequired => 411,
        HttpdError::UriTooLong => 414,
        HttpdError::ReqHdrFieldsTooLarge => 431,
    }
}

impl HttpdError {
    /// The native code of this error.
    pub fn code(self) -> (c: u32)
        ensures
            c == httpd_error_code(self),
    {
        match self {
            HttpdError::InternalServerError => 0,
            HttpdError::MethodNotImplemented => 1,
            HttpdError::VersionNotSupported => 2,
            HttpdError::BadRequest => 3,
            HttpdError::Unauthorized => 4,
            HttpdError::Forbidden => 5,
            HttpdError::NotFound => 6,
            HttpdError::MethodNotAllowed => 7,
            HttpdError::ReqTimeout => 8,
            HttpdError::LengthRequired => 9,
            HttpdError::UriTooLong => 10,
            HttpdError::ReqHdrFieldsTooLarge => 11,
        }
    }

    /// The HTTP status of this error.
    pub fn status(self) -> (s: u16)
        ensures
            s == httpd_error_status(self),
    {
        match self {
            HttpdError::InternalServerError => 500,
            HttpdError::MethodNotImplemented => 501,
            HttpdError::VersionNotSupported => 505,
            HttpdError::BadRequest => 400,
            HttpdError::Unauthorized => 401,
            HttpdError::Forbidden => 403,
            HttpdError::NotFound => 404,
            HttpdError::MethodNotAllowed => 405,
            HttpdError::ReqTimeout => 408,
            HttpdError::LengthRequired => 411,
            HttpdError::UriTooLong => 414,
            HttpdError::ReqHdrFieldsTooLarge => 431,
        }
    }

    /// The error with native code `code`; `None` for a code outside 0 to 11.
    pub fn from_code(code: u32) -> (e: Option<HttpdError>)
        ensures
            e is Some <==> code <= 11,
            e matches Some(x) ==> httpd_error_code(x) == code,
    {
        if code == 0 { Some(HttpdError::InternalServerError) }
        else if code == 1 { Some(HttpdError::MethodNotImplemented) }
        else if code == 2 { Some(HttpdError::VersionNotSupported) }
        else if code == 3 { Some(HttpdError::BadRequest) }
        else if code == 4 { Some(HttpdError::Unauthorized) }
        else if code == 5 { Some(HttpdError::Forbidden) }
        else if code == 6 { Some(HttpdError::NotFound) }
        else if code == 7 { Some(HttpdError::MethodNotAllowed) }
        else if code == 8 { Some(HttpdError::ReqTimeout) }
        else if code == 9 { Some(HttpdError::LengthRequired) }
        else if code == 10 { Some(HttpdError::UriTooLong) }
        else if code == 11 { Some(HttpdError::ReqHdrFieldsTooLarge) }
        else { None }
    }
}

/// Errors and native codes correspond one to one: converting an error to
/// its code and back gives the error, and different errors have different
/// codes.
pub proof fn lemma_httpd_error_codes(a: HttpdError, b: HttpdError)
    ensures
        httpd_error_code(a) <= 11,
        httpd_error_code(a) == httpd_error_code(b) <==> a == b,
{
}

// ---------------------------------------------------------------------------
// Reading a request
// ---------------------------------------------------------------------------

/// Native receive status: the socket failed.
pub const HTTPD_SOCK_ERR_FAIL: i32 = -1;
/// Native receive status: invalid arguments.
pub const HTTPD_SOCK_ERR_INVALID: i32 = -2;
/// Native receive status: timed out.
pub const HTTPD_SOCK_ERR_TIMEOUT: i32 = -3;

/// Why reading a request body failed.
#[derive(Debug, Clone, Copy, PartialEq, Eq, Structural)]
pub enum ReadErrorKind {
    InvalidInput,
    TimedOut,
    Other,
}

/// The outcome of a native receive that returned `len`: a negative status
/// is an error (invalid input, a timeout, or anything else), otherwise the
/// number of bytes read.
pub fn recv_result(len: i32) -> (r: Result<usize, ReadErrorKind>)
    ensures
        len >= 0 ==> r == Ok::<usize, ReadErrorKind>(len as usize),
        len == HTTPD_SOCK_ERR_INVALID ==> r == Err::<usize, ReadErrorKind>(ReadErrorKind::InvalidInput),
        len == HTTPD_SOCK_ERR_TIMEOUT ==> r == Err::<usize, ReadErrorKind>(ReadErrorKind::TimedOut),
        len < 0 && len != HTTPD_SOCK_ERR_INVALID && len != HTTPD_SOCK_ERR_TIMEOUT
            ==> r == Err::<usize, ReadErrorKind>(ReadErrorKind::Other),
{
    if len >= 0 {
        Ok(len as usize)
    } else if len == HTTPD_SOCK_ERR_INVALID {
        Err(ReadErrorKind::InvalidInput)
    } else if len == HTTPD_SOCK_ERR_TIMEOUT {
        Err(ReadErrorKind::TimedOut)
    } else {
        Err(ReadErrorKind::Other)
    }
}

/// A header value or query string fetched into `buf`: none when the native
/// length `len` is zero (absent), else the first `len` bytes of the buffer,
/// the terminating NUL after them left out.
pub fn fetched_value(len: usize, buf: &[u8]) -> (r: Option<Vec<u8>>)
    requires
        len <= buf@.len(),
    ensures
        len == 0 ==> r is None,
        len > 0 ==> (r matches Some(v) && v@ == buf@.subrange(0, len as int)),
{
    if len == 0 {
        None
    } else {
        let mut v: Vec<u8> = Vec::new();
        let mut i: usize = 0;
        while i < len
            invariant
                i <= len,
                len <= buf@.len(),
                v@ == buf@.subrange(0, i as int),
            decreases len - i,
        {
            v.push(buf[i]);
            i = i + 1;
            assert(v@ =~= buf@.subrange(0, i as int));
        }
        Some(v)
    }
}

// ---------------------------------------------------------------------------
// Sending a response
// ---------------------------------------------------------------------------

/// The value of a decimal digit character.
pub open spec fn digit_value(c: char) -> int {
    (c as u32) - ('0' as u32)
}

/// Whether a character is a decimal digit.
pub open spec fn is_digit(c: char) -> bool {
    '0' <= c && c <= '9'
}

/// Whether every character of `s` is a decimal digit.
pub open spec fn all_digits(s: Seq<char>) -> bool {
    forall|i: int| 0 <= i < s.len() ==> is_digit(#[trigger] s[i])
}

/// The number the digits of `s` spell, most significant first.
pub open spec fn digits_value(s: Seq<char>) -> int
    decreases s.len(),
{
    if s.len() == 0 {
        0
    } else {
        digits_value(s.drop_last()) * 10 + digit_value(s.last())
    }
}

/// The unsigned number `s` holds in the form `usize::from_str` accepts: an
/// optional `+`, then one or more decimal digits, with a value that fits a
/// `usize`.
pub open spec fn parse_usize(s: Seq<char>) -> Option<usize> {
    let digits = if s.len() > 0 && s[0] == '+' { s.drop_first() } else { s };
    if digits.len() > 0 && all_digits(digits) && digits_value(digits) <= usize::MAX {
        Some(digits_value(digits) as usize)
    } else {
        None
    }
}

proof fn lemma_digits_value_nonneg(s: Seq<char>)
    requires
        forall|i: int| 0 <= i < s.len() ==> is_digit(#[trigger] s[i]),
    ensures
        digits_value(s) >= 0,
    decreases s.len(),
{
    if s.len() > 0 {
        lemma_digits_value_nonneg(s.drop_last());
    }
}

proof fn lemma_digits_value_monotone(s: Seq<char>, n: int)
    requires
        0 <= n <= s.len(),
        forall|i: int| 0 <= i < s.len() ==> is_digit(#[trigger] s[i]),
    ensures
        digits_value(s.subrange(0, n)) <= digits_value(s),
    decreases s.len() - n,
{
    if n < s.len() {
        lemma_digits_value_monotone(s, n + 1);
        let t = s.subrange(0, n + 1);
        assert(t.drop_last() =~= s.subrange(0, n));
        lemma_digits_value_nonneg(s.subrange(0, n));
    } else {
        assert(s.subrange(0, n) =~= s);
    }
}

/// Parses a `Content-Length` value (see `parse_usize`).
pub fn parse_content_length(s: &str) -> (r: Option<usize>)
    ensures
        r == parse_usize(s@),
{
    let n = s.unicode_len();
    let mut start: usize = 0;
    if n > 0 && s.get_char(0) == '+' {
        start = 1;
    }
    let ghost digits = if s@.len() > 0 && s@[0] == '+' { s@.drop_first() } else { s@ };
    assert(digits =~= s@.subrange(start as int, n as int));
    if start == n {
        return None;
    }
    let mut value: usize = 0;
    let mut i: usize = start;
    while i < n
        invariant
            n == s@.len(),
            start <= i <= n,
            digits == s@.subrange(start as int, n as int),
            digits == (if s@.len() > 0 && s@[0] == '+' { s@.drop_first() } else { s@ }),
            forall|k: int| start <= k < i ==> is_digit(#[trigger] s@[k]),
            value as int == digits_value(s@.subrange(start as int, i as int)),
        decreases n - i,
    {
        let c = s.get_char(i);
        if !('0' <= c && c <= '9') {
            proof {
                assert(!is_digit(digits[i - start]));
                assert(!all_digits(digits));
                assert(parse_usize(s@) is None);
            }
            return None;
        }
        let d = (c as u32 - '0' as u32) as usize;
        proof {
            let prefix = s@.subrange(start as int, i + 1);
            assert(prefix.drop_last() =~= s@.subrange(start as int, i as int));
            assert(prefix.last() == c);
        }
        if value > (usize::MAX - d) / 10 {
            proof {
                let prefix = s@.subrange(start as int, i + 1);
                assert(digits_value(prefix) > usize::MAX) by (nonlinear_arith)
                    requires
                        digits_value(prefix) == value * 10 + d,
                        value > (usize::MAX - d) / 10,
                        d <= 9;
                assert forall|k: int| 0 <= k < prefix.len() implies is_digit(#[trigger] prefix[k]) by {
                    assert(prefix[k] == s@[start + k]);
                }
                if all_digits(digits) {
                    lemma_digits_value_monotone(digits, (i + 1 - start) as int);
                    assert(digits.subrange(0, (i + 1 - start) as int) =~= prefix);
                    assert(digits_value(digits) > usize::MAX);
                }
                assert(parse_usize(s@) is None);
            }
            return None;
        }
        value = value * 10 + d;
        i = i + 1;
    }
    proof {
        assert(s@.subrange(start as int, n as int) =~= digits);
        assert forall|k: int| 0 <= k < digits.len() implies is_digit(#[trigger] digits[k]) by {
            assert(digits[k] == s@[start + k]);
        }
        assert(all_digits(digits));
    }
    Some(value)
}

/// The size of the buffer a streamed body is read into and sent from.
pub const BODY_CHUNK_SIZE: usize = 256;

/// What follows one read of a streamed body.
#[derive(Debug, Clone, Copy, PartialEq, Eq, Structural)]
pub struct BodyChunk {
    /// How many bytes of the buffer are sent as the next chunk.
    pub send_len: usize,
    /// Whether the body ends after this chunk.
    pub last: bool,
}

/// What follows a read of a streamed body that filled `read_len` bytes of
/// the buffer: the whole buffer of `BODY_CHUNK_SIZE` bytes is sent as a
/// chunk, whatever the read filled, and the body ends after a read that
/// gave no byte.
pub fn body_chunk(read_len: usize) -> (c: BodyChunk)
    ensures
        c.send_len == BODY_CHUNK_SIZE,
        c.last == (read_len == 0),
{
    BodyChunk { send_len: BODY_CHUNK_SIZE, last: read_len == 0 }
}

/// One response header.
pub struct HeaderPair {
    pub name: String,
    pub value: String,
}

/// What sending a response hands to the native server: the status line,
/// the content type, and the other headers in order.
pub struct SendPlan {
    pub status: String,
    pub content_type: Option<String>,
    pub headers: Vec<HeaderPair>,
}

/// Why a response could not be sent.
#[derive(Debug, Clone, Copy, PartialEq, Eq, Structural)]
pub enum SendError {
    /// The status line holds a NUL character.
    InvalidStatus,
    /// A `Content-Length` header does not hold a number.
    InvalidContentLength,
}

/// Whether a name is `Content-Type`, ignoring ASCII case.
pub open spec fn is_content_type_name(name: Seq<char>) -> bool {
    same_name(name, seq!['C', 'o', 'n', 't', 'e', 'n', 't', '-', 'T', 'y', 'p', 'e'])
}

/// Whether a name is `Content-Length`, ignoring ASCII case.
pub open spec fn is_content_length_name(name: Seq<char>) -> bool {
    same_name(name, seq!['C', 'o', 'n', 't', 'e', 'n', 't', '-', 'L', 'e', 'n', 'g', 't', 'h'])
}

/// Whether some `Content-Length` header among the first `n` does not hold a
/// number.
pub open spec fn bad_content_length(hs: Seq<HeaderPair>, n: int) -> bool {
    exists|k: int| 0 <= k < n && is_content_length_name(#[trigger] hs[k].name@) && parse_usize(hs[k].value@) is None
}

/// The headers handed on as they are: those that are neither the content
/// type nor the content length, in order.
pub open spec fn passed_headers(hs: Seq<HeaderPair>, n: nat) -> Seq<(Seq<char>, Seq<char>)>
    decreases n,
{
    if n == 0 {
        Seq::empty()
    } else {
        let k = n - 1;
        let rest = passed_headers(hs, (n - 1) as nat);
        if is_content_type_name(hs[k].name@) || is_content_length_name(hs[k].name@) {
            rest
        } else {
            rest.push((hs[k].name@, hs[k].value@))
        }
    }
}

/// The value of the last content-type header among the first `n`.
pub open spec fn last_content_type(hs: Seq<HeaderPair>, n: nat) -> Option<Seq<char>>
    decreases n,
{
    if n == 0 {
        None
    } else if is_content_type_name(hs[n - 1].name@) {
        Some(hs[n - 1].value@)
    } else {
        last_content_type(hs, (n - 1) as nat)
    }
}

/// Equality of two strings ignoring ASCII case (`str::eq_ignore_ascii_case`).
fn eq_ignore_ascii_case(a: &str, b: &str) -> (r: bool)
    ensures
        r == same_name(a@, b@),
{
    let n = a.unicode_len();
    let m = b.unicode_len();
    if n != m {
        proof {
            assert(crate::http::lowered(a@).len() != crate::http::lowered(b@).len());
        }
        return false;
    }
    let mut i: usize = 0;
    while i < n
        invariant
            n == a@.len(),
            m == b@.len(),
            n == m,
            i <= n,
            forall|k: int| 0 <= k < i ==> crate::http::ascii_lower(a@[k]) == crate::http::ascii_lower(b@[k]),
        decreases n - i,
    {
        let x = a.get_char(i);
        let y = b.get_char(i);
        let lx = if 'A' <= x && x <= 'Z' { ((x as u32) + 32) as u8 as char } else { x };
        let ly = if 'A' <= y && y <= 'Z' { ((y as u32) + 32) as u8 as char } else { y };
        proof {
            if 'A' <= x && x <= 'Z' {
                assert(((x as u32) + 32) < 256);
                assert(lx == crate::http::ascii_lower(x));
            }
            if 'A' <= y && y <= 'Z' {
                assert(ly == crate::http::ascii_lower(y));
            }
        }
        if lx != ly {
            proof {
                assert(crate::http::lowered(a@)[i as int] != crate::http::lowered(b@)[i as int]);
            }
            return false;
        }
        i = i + 1;
    }
    assert(crate::http::lowered(a@) =~= crate::http::lowered(b@));
    true
}

/// What sending a response with `status`, its `message` and `headers`
/// hands to the native server: the status line (the
/// code, then a space and the message when there is one), the last
/// content-type value, and the other headers but the content length, in
/// order. Refused when the status line holds a NUL character, or when a
/// `Content-Length` value is not a number (the status has then already
/// been handed over).
pub fn send_plan(status: u16, message: Option<&str>, headers: &Vec<HeaderPair>) -> (r: Result<SendPlan, SendError>)
    requires
        forall|k: int| 0 <= k < headers@.len() ==> !has_nul(#[trigger] headers@[k].name@) && !has_nul(headers@[k].value@),
    ensures
        ({
            let line = status_text(status, match message { Some(m) => Some(m@), None => None });
            if has_nul(line) {
                r == Err::<SendPlan, SendError>(SendError::InvalidStatus)
            } else if bad_content_length(headers@, headers@.len() as int) {
                r == Err::<SendPlan, SendError>(SendError::InvalidContentLength)
            } else {
                r matches Ok(plan) && plan.status@ == line
                    && match plan.content_type {
                        Some(t) => last_content_type(headers@, headers@.len()) == Some(t@),
                        None => last_content_type(headers@, headers@.len()) is None,
                    }
                    && plan.headers@.map_values(|h: HeaderPair| (h.name@, h.value@)) == passed_headers(headers@, headers@.len())
            }
        }),
{
    let mut line = String::new();
    push_decimal(&mut line, status as u64);
    match message {
        Some(m) => {
            push_char(&mut line, ' ');
            push_str(&mut line, m);
        },
        None => {},
    }
    assert(line@ =~= status_text(status, match message { Some(m) => Some(m@), None => None }));
    if !is_c_compatible(line.as_str()) {
        return Err(SendError::InvalidStatus);
    }
    proof {
        reveal_strlit("Content-Type");
        reveal_strlit("Content-Length");
    }
    let mut content_type: Option<String> = None;
    let mut passed: Vec<HeaderPair> = Vec::new();
    let mut i: usize = 0;
    while i < headers.len()
        invariant
            i <= headers@.len(),
            !bad_content_length(headers@, i as int),
            line@ == status_text(status, match message { Some(m) => Some(m@), None => None }),
            !has_nul(line@),
            "Content-Type"@ == seq!['C', 'o', 'n', 't', 'e', 'n', 't', '-', 'T', 'y', 'p', 'e'],
            "Content-Length"@ == seq!['C', 'o', 'n', 't', 'e', 'n', 't', '-', 'L', 'e', 'n', 'g', 't', 'h'],
            match content_type {
                Some(t) => last_content_type(headers@, i as nat) == Some(t@),
                None => last_content_type(headers@, i as nat) is None,
            },
            passed@.map_values(|h: HeaderPair| (h.name@, h.value@)) == passed_headers(headers@, i as nat),
        decreases headers.len() - i,
    {
        let name = headers[i].name.as_str();
        let value = headers[i].value.as_str();
        let ghost before = passed@;
        proof {
            let ct = seq!['C', 'o', 'n', 't', 'e', 'n', 't', '-', 'T', 'y', 'p', 'e'];
            let cl = seq!['C', 'o', 'n', 't', 'e', 'n', 't', '-', 'L', 'e', 'n', 'g', 't', 'h'];
            if is_content_type_name(name@) {
                assert(crate::http::lowered(name@).len() == 12);
                assert(crate::http::lowered(cl).len() == 14);
                assert(!is_content_length_name(name@));
            }
            assert(headers@[i as int].name@ == name@);
            assert(headers@[i as int].value@ == value@);
        }
        if eq_ignore_ascii_case(name, "Content-Type") {
            let mut t = String::new();
            push_str(&mut t, value);
            content_type = Some(t);
        } else if eq_ignore_ascii_case(name, "Content-Length") {
            if parse_content_length(value).is_none() {
                proof {
                    assert(is_content_length_name(headers@[i as int].name@));
                    assert(bad_content_length(headers@, headers@.len() as int));
                }
                return Err(SendError::InvalidContentLength);
            }
        } else {
            let mut n2 = String::new();
            push_str(&mut n2, name);
            let mut v2 = String::new();
            push_str(&mut v2, value);
            passed.push(HeaderPair { name: n2, value: v2 });
            proof {
                assert(passed@.map_values(|h: HeaderPair| (h.name@, h.value@))
                    =~= before.map_values(|h: HeaderPair| (h.name@, h.value@)).push((headers@[i as int].name@, headers@[i as int].value@)));
            }
        }
        proof {
            assert forall|k: int| 0 <= k < i + 1 && is_content_length_name(#[trigger] headers@[k].name@)
                implies parse_usize(headers@[k].value@) is Some by {
                if k < i {
                    assert(!(0 <= k < i && is_content_length_name(headers@[k].name@) && parse_usize(headers@[k].value@) is None));
                }
            }
        }
        i = i + 1;
    }
    Ok(SendPlan { status: line, content_type, headers: passed })
}

} // verus!
