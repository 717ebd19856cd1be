//! The HTTP server: its configuration and the native configuration derived
//! from it, request methods, the response's headers and life cycle, the
//! status line and header table handed to the native server, cookies of the
//! session, and WebSocket frame types.

use vstd::prelude::*;

use crate::cookies::{cookie_text, cookie_value, cookies_with, lemma_cookie_read_back};
use crate::error::{EspError, ESP_FAIL, ESP_OK};
use crate::sequence::{ran_until_failure, run_result};
use crate::text::{decimal, has_nul, is_c_compatible, push_char, push_decimal, push_str};

verus! {

// ---------------------------------------------------------------------------
// Configuration
// ---------------------------------------------------------------------------

/// The server's configuration.
#[derive(Debug, Clone, Copy)]
pub struct Configuration {
    pub http_port: u16,
    pub https_port: u16,
    pub max_sessions: usize,
    /// How long an idle session lives, in seconds.
    pub session_timeout_secs: u64,
    pub stack_size: usize,
    pub max_open_sockets: usize,
    pub max_uri_handlers: usize,
    pub max_resp_handlers: usize,
    pub session_cookie_name: &'static str,
}

impl Default for Configuration {
    /// Port 80 and 443, 16 sessions living 20 minutes, a 10 KiB stack, 5
    /// sockets, 32 URI handlers, 8 response headers and the session cookie
    /// `SESSIONID`.
    fn default() -> (c: Self)
        ensures
            c.http_port == 80,
            c.https_port == 443,
            c.max_sessions == 16,
            c.session_timeout_secs == 1200,
            c.stack_size == 10240,
            c.max_open_sockets == 5,
            c.max_uri_handlers == 32,
            c.max_resp_handlers == 8,
            c.session_cookie_name@ == "SESSIONID"@,
    {
        Configuration {
            http_port: 80,
            https_port: 443,
            max_sessions: 16,
            session_timeout_secs: 20 * 60,
            stack_size: 10240,
            max_open_sockets: 5,
            max_uri_handlers: 32,
            max_resp_handlers: 8,
            session_cookie_name: "SESSIONID",
        }
    }
}

/// The native server configuration (`httpd_config_t`) fields the server
/// sets.
#[derive(Debug, Clone, Copy)]
pub struct HttpdConfig {
    pub task_priority: u32,
    pub stack_size: usize,
    pub core_id: i32,
    pub server_port: u16,
    pub ctrl_port: u16,
    pub max_open_sockets: u16,
    pub max_uri_handlers: u16,
    pub max_resp_headers: u16,
    pub backlog_conn: u16,
    pub lru_purge_enable: bool,
    pub recv_wait_timeout: u16,
    pub send_wait_timeout: u16,
}

/// The native configuration for `conf`: task priority 5 on any core, the
/// control port 32768, a backlog of 5, 5-second timeouts, least-recently-used
/// purging when HTTPS has a port, and the limits of `conf` (narrowed to the
/// native field widths).
pub fn httpd_config(conf: &Configuration) -> (c: HttpdConfig)
    ensures
        c.task_priority == 5,
        c.stack_size == conf.stack_size,
        c.core_id == i32::MAX,
        c.server_port == conf.http_port,
        c.ctrl_port == 32768,
        c.max_open_sockets == conf.max_open_sockets as u16,
        c.max_uri_handlers == conf.max_uri_handlers as u16,
        c.max_resp_headers == conf.max_resp_handlers as u16,
        c.backlog_conn == 5,
        c.lru_purge_enable == (conf.https_port != 0),
        c.recv_wait_timeout == 5,
        c.send_wait_timeout == 5,
{
    HttpdConfig {
        task_priority: 5,
        stack_size: conf.stack_size,
        core_id: i32::MAX,
        server_port: conf.http_port,
        ctrl_port: 32768,
        max_open_sockets: conf.max_open_sockets as u16,
        max_uri_handlers: conf.max_uri_handlers as u16,
        max_resp_headers: conf.max_resp_handlers as u16,
        backlog_conn: 5,
        lru_purge_enable: conf.https_port != 0,
        recv_wait_timeout: 5,
        send_wait_timeout: 5,
    }
}

// ---------------------------------------------------------------------------
// Registered handlers
// ---------------------------------------------------------------------------

/// A URI handler registered with the native server: its method, and the
/// caller's key for the URI and the handler it holds.
#[derive(Debug, Clone, Copy, PartialEq, Eq, Structural)]
pub struct Registration {
    pub key: u32,
    pub method: u32,
}

/// The handlers of a server, in the order they were registered, and whether
/// the server runs.
pub struct HandlerRegistry {
    registrations: Vec<Registration>,
    running: bool,
}

impl HandlerRegistry {
    /// The registered handlers, oldest first.
    pub closed spec fn spec_registrations(self) -> Seq<Registration> {
        self.registrations@
    }

    /// Whether the server runs.
    pub closed spec fn spec_running(self) -> bool {
        self.running
    }

    /// A started server with no handler.
    pub fn new() -> (h: Self)
        ensures
            h.spec_registrations() == Seq::<Registration>::empty(),
            h.spec_running(),
    {
        HandlerRegistry { registrations: Vec::new(), running: true }
    }

    /// Whether the server runs.
    pub fn is_running(&self) -> (b: bool)
        ensures
            b == self.spec_running(),
    {
        self.running
    }

    /// The registered handlers, oldest first.
    pub fn registrations(&self) -> (v: &Vec<Registration>)
        ensures
            v@ == self.spec_registrations(),
    {
        &self.registrations
    }

    /// Records a handler whose native registration returned `status`: it is
    /// kept when that succeeded; otherwise nothing changes and the status is
    /// the error.
    pub fn register(&mut self, registration: Registration, status: i32) -> (r: Result<(), EspError>)
        ensures
            status == ESP_OK ==> r is Ok && final(self).spec_registrations() == old(self).spec_registrations().push(
                registration,
            ),
            status != ESP_OK ==> (r matches Err(e) && e.spec_code() == status) && final(self).spec_registrations()
                == old(self).spec_registrations(),
            final(self).spec_running() == old(self).spec_running(),
    {
        if status == ESP_OK {
            self.registrations.push(registration);
            Ok(())
        } else {
            Err(EspError::from_non_zero(status))
        }
    }

    /// Stops a running server: unregisters its handlers through
    /// `unregister`, newest first, each leaving the table as it is
    /// unregistered, and stops at the first refusal with its error; when all
    /// are gone, stops the server through `stop_server`, which fails with
    /// its status or leaves the server stopped. A stopped server is left as
    /// it is.
    pub fn stop<F: Fn(Registration) -> i32, G: Fn() -> i32>(&mut self, unregister: &F, stop_server: &G) -> (r: Result<
        (),
        EspError,
    >)
        requires
            forall|x: Registration| call_requires(*unregister, (x,)),
            call_requires(*stop_server, ()),
        ensures
            !old(self).spec_running() ==> r is Ok && final(self).spec_registrations() == old(self).spec_registrations()
                && !final(self).spec_running(),
            old(self).spec_running() ==> exists|codes: Seq<i32>|
                #[trigger] ran_until_failure(old(self).spec_registrations().reverse(), codes, *unregister)
                    && final(self).spec_registrations() == old(self).spec_registrations().subrange(
                    0,
                    old(self).spec_registrations().len() - codes.len(),
                ) && match run_result(old(self).spec_registrations().len(), codes) {
                    Err(c) => final(self).spec_running() && (r matches Err(e) && e.spec_code() == c),
                    Ok(()) => exists|s: i32| #[trigger]
                        call_ensures(*stop_server, (), s) && if s == ESP_OK {
                            r is Ok && !final(self).spec_running()
                        } else {
                            (r matches Err(e) && e.spec_code() == s) && final(self).spec_running()
                        },
                },
            old(self).spec_running() && r is Ok ==> final(self).spec_registrations().len() == 0 && !final(self).spec_running(),
    {
        if !self.running {
            return Ok(());
        }
        let ghost regs0 = self.registrations@;
        let ghost mut codes: Seq<i32> = Seq::empty();
        while self.registrations.len() > 0
            invariant
                forall|x: Registration| call_requires(*unregister, (x,)),
                self.running,
                old(self).running,
                regs0 == old(self).registrations@,
                codes.len() + self.registrations@.len() == regs0.len(),
                self.registrations@ == regs0.subrange(0, regs0.len() - codes.len()),
                forall|j: int| 0 <= j < codes.len() ==> #[trigger] call_ensures(*unregister, (regs0.reverse()[j],), codes[j]),
                forall|j: int| 0 <= j < codes.len() ==> #[trigger] codes[j] == ESP_OK,
            decreases self.registrations.len(),
        {
            let ghost before = self.registrations@;
            let reg = self.registrations.pop().unwrap();
            assert(reg == regs0.reverse()[codes.len() as int]);
            let code = unregister(reg);
            proof {
                codes = codes.push(code);
            }
            assert(self.registrations@ =~= regs0.subrange(0, regs0.len() - codes.len()));
            if code != ESP_OK {
                assert(ran_until_failure(old(self).spec_registrations().reverse(), codes, *unregister));
                assert(run_result(regs0.len(), codes) == Err::<(), i32>(code));
                return Err(EspError::from_non_zero(code));
            }
        }
        assert(ran_until_failure(old(self).spec_registrations().reverse(), codes, *unregister));
        assert(run_result(regs0.len(), codes) == Ok::<(), i32>(()));
        let s = stop_server();
        assert(call_ensures(*stop_server, (), s));
        if s == ESP_OK {
            self.running = false;
            Ok(())
        } else {
            Err(EspError::from_non_zero(s))
        }
    }
}

// ---------------------------------------------------------------------------
// Methods
// ---------------------------------------------------------------------------

/// An HTTP request method.
#[derive(Debug, Clone, Copy, PartialEq, Eq, Structural)]
pub enum Method {
    Delete,
    Get,
    Head,
    Post,
    Put,
    Connect,
    Options,
    Trace,
    Copy,
    Lock,
    MkCol,
    Move,
    Propfind,
    Proppatch,
    Search,
    Unlock,
    Bind,
    Rebind,
    Unbind,
    Acl,
    Report,
    MkActivity,
    Checkout,
    Merge,
    MSearch,
    Notify,
    Subscribe,
    Unsubscribe,
    Patch,
    Purge,
    MkCalendar,
    Link,
    Unlink,
}

/// The native code of a method (`http_method`): its position in the list
/// above, from `DELETE` (0) to `UNLINK` (32).
pub open spec fn method_code(m: Method) -> u32 {
    match m {
        Method::Delete => 0,
        Method::Get => 1,
        Method::Head => 2,
        Method::Post => 3,
        Method::Put => 4,
        Method::Connect => 5,
        Method::Options => 6,
        Method::Trace => 7,
        Method::Copy => 8,
        Method::Lock => 9,
        Method::MkCol => 10,
        Method::Move => 11,
        Method::Propfind => 12,
        Method::Proppatch => 13,
        Method::Search => 14,
        Method::Unlock => 15,
        Method::Bind => 16,
        Method::Rebind => 17,
        Method::Unbind => 18,
        Method::Acl => 19,
        Method::Report => 20,
        Method::MkActivity => 21,
        Method::Checkout => 22,
        Method::Merge => 23,
        Method::MSearch => 24,
        Method::Notify => 25,
        Method::Subscribe => 26,
        Method::Unsubscribe => 27,
        Method::Patch => 28,
        Method::Purge => 29,
        Method::MkCalendar => 30,
        Method::Link => 31,
        Method::Unlink => 32,
    }
}

impl Method {
    /// The native code of this method.
    pub fn to_http_method(self) -> (c: u32)
        ensures
            c == method_code(self),
    {
        match self {
            Method::Delete => 0,
            Method::Get => 1,
            Method::Head => 2,
            Method::Post => 3,
            Method::Put => 4,
            Method::Connect => 5,
            Method::Options => 6,
            Method::Trace => 7,
            Method::Copy => 8,
            Method::Lock => 9,
            Method::MkCol => 10,
            Method::Move => 11,
            Method::Propfind => 12,
            Method::Proppatch => 13,
            Method::Search => 14,
            Method::Unlock => 15,
            Method::Bind => 16,
            Method::Rebind => 17,
            Method::Unbind => 18,
            Method::Acl => 19,
            Method::Report => 20,
            Method::MkActivity => 21,
            Method::Checkout => 22,
            Method::Merge => 23,
            Method::MSearch => 24,
            Method::Notify => 25,
            Method::Subscribe => 26,
            Method::Unsubscribe => 27,
            Method::Patch => 28,
            Method::Purge => 29,
            Method::MkCalendar => 30,
            Method::Link => 31,
            Method::Unlink => 32,
        }
    }
}

/// Different methods have different native codes.
pub proof fn lemma_method_codes_distinct(a: Method, b: Method)
    ensures
        method_code(a) == method_code(b) <==> a == b,
{
}

// ---------------------------------------------------------------------------
// Case-insensitive header names
// ---------------------------------------------------------------------------

/// A character with ASCII upper-case letters lowered.
pub open spec fn ascii_lower(c: char) -> char {
    if 'A' <= c && c <= 'Z' {
        ((c as u32) + 32) as char
    } else {
        c
    }
}

/// A string with ASCII upper-case letters lowered.
pub open spec fn lowered(s: Seq<char>) -> Seq<char> {
    s.map_values(|c: char| ascii_lower(c))
}

/// Whether `a` comes before `b` in lexicographic order of characters.
pub open spec fn lex_less(a: Seq<char>, b: Seq<char>) -> bool
    decreases a.len(),
{
    if b.len() == 0 {
        false
    } else if a.len() == 0 {
        true
    } else if a[0] != b[0] {
        (a[0] as u32) < (b[0] as u32)
    } else {
        lex_less(a.drop_first(), b.drop_first())
    }
}

/// Whether two header names are the same, ignoring ASCII case.
pub open spec fn same_name(a: Seq<char>, b: Seq<char>) -> bool {
    lowered(a) == lowered(b)
}

/// Whether header name `a` sorts before `b`, ignoring ASCII case.
pub open spec fn name_before(a: Seq<char>, b: Seq<char>) -> bool {
    lex_less(lowered(a), lowered(b))
}

/// Whether two strings are equal ignoring ASCII case (`uncased`'s
/// `UncasedStr` equality, which is `str::eq_ignore_ascii_case`).
#[verifier::external_body]
fn uncased_eq(a: &str, b: &str) -> (r: bool)
    ensures
        r == same_name(a@, b@),
{
    uncased::UncasedStr::new(a) == uncased::UncasedStr::new(b)
}

/// Whether `a` sorts before `b` ignoring ASCII case (`uncased`'s
/// `UncasedStr` order: the characters, ASCII-lowered, compared
/// lexicographically).
#[verifier::external_body]
fn uncased_lt(a: &str, b: &str) -> (r: bool)
    ensures
        r == name_before(a@, b@),
{
    uncased::UncasedStr::new(a) < uncased::UncasedStr::new(b)
}

// ---------------------------------------------------------------------------
// Cookies
// ---------------------------------------------------------------------------

/// Sets a cookie in a cookie header: `embedded_svc::utils::http::cookies::
/// Cookies::set` over the header's cookies (`Cookies::new`, iterated), then
/// `Cookies::serialize`, collected. Claimed, from the source: the header is
/// split at `;` and each piece at `=`, reading stops at the first piece
/// without `=`, `set` drops the cookies named `name` and appends
/// `name=value`, and `serialize` writes the pairs joined with `;`; that is
/// `cookies_with`. `set` and `serialize` take and give iterators, which no
/// verified signature can hold, so the three calls stand together here.
#[verifier::external_body]
fn set_cookie(cookies: &str, name: &str, value: &str) -> (r: String)
    ensures
        r@ == cookies_with(cookies@, name@, value@),
{
    let parsed = embedded_svc::utils::http::cookies::Cookies::new(cookies);
    let set = embedded_svc::utils::http::cookies::Cookies::set(parsed.into_iter(), name, value);
    embedded_svc::utils::http::cookies::Cookies::serialize(set).collect()
}

/// Looks a cookie up in a cookie header (`embedded_svc::utils::http::
/// cookies::Cookies::get`). Claimed, from the source: the value of the first
/// cookie read from the header (as for `set_cookie`) whose name is `name`;
/// that is `cookie_value`.
#[verifier::external_body]
fn get_cookie(cookies: &str, name: &str) -> (r: Option<String>)
    ensures
        match r {
            Some(v) => cookie_value(cookies@, name@) == Some(v@),
            None => cookie_value(cookies@, name@) is None,
        },
{
    embedded_svc::utils::http::cookies::Cookies::new(cookies).get(name).map(|v| v.to_string())
}

/// The session id a request carries: the value of the session cookie in the
/// request's `cookies` header, if it has one.
pub fn session_id_of(cookies_header: Option<&str>, session_cookie_name: &str) -> (r: Option<String>)
    ensures
        cookies_header is None ==> r is None,
        cookies_header matches Some(c) ==> match r {
            Some(v) => cookie_value(c@, session_cookie_name@) == Some(v@),
            None => cookie_value(c@, session_cookie_name@) is None,
        },
{
    match cookies_header {
        Some(c) => get_cookie(c, session_cookie_name),
        None => None,
    }
}

// ---------------------------------------------------------------------------
// Response headers
// ---------------------------------------------------------------------------

/// One response header.
pub struct Header {
    pub name: String,
    pub value: String,
}

/// The headers of a response before they are sent: the status, its message
/// and the header table, whose names are unique ignoring case and kept in
/// case-insensitive order.
pub struct ResponseHeaders {
    status: u16,
    status_message: Option<String>,
    headers: Vec<Header>,
    sent: bool,
}

/// The position a new header name takes in a table: after every name that
/// sorts before it.
pub open spec fn insert_position(names: Seq<Seq<char>>, name: Seq<char>, p: int) -> bool {
    &&& 0 <= p <= names.len()
    &&& forall|k: int| 0 <= k < p ==> name_before(#[trigger] names[k], name)
    &&& p < names.len() ==> !name_before(names[p], name)
}

/// The names of a header table.
pub open spec fn names_of(hs: Seq<Header>) -> Seq<Seq<char>> {
    hs.map_values(|h: Header| h.name@)
}

/// The values of a header table.
pub open spec fn values_of(hs: Seq<Header>) -> Seq<Seq<char>> {
    hs.map_values(|h: Header| h.value@)
}

impl ResponseHeaders {
    /// The status code.
    pub closed spec fn spec_status(self) -> u16 {
        self.status
    }

    /// The status message, if set.
    pub closed spec fn spec_status_message(self) -> Option<Seq<char>> {
        match self.status_message {
            Some(m) => Some(m@),
            None => None,
        }
    }

    /// The header names, in table order.
    pub closed spec fn spec_names(self) -> Seq<Seq<char>> {
        names_of(self.headers@)
    }

    /// The header values, in table order.
    pub closed spec fn spec_values(self) -> Seq<Seq<char>> {
        values_of(self.headers@)
    }

    /// Whether the headers have been sent.
    pub closed spec fn spec_sent(self) -> bool {
        self.sent
    }

    /// Status 200, no message, no header.
    pub fn new() -> (h: Self)
        ensures
            h.spec_status() == 200,
            h.spec_status_message() is None,
            h.spec_names().len() == 0,
            h.spec_values().len() == 0,
            !h.spec_sent(),
    {
        let h = ResponseHeaders { status: 200, status_message: None, headers: Vec::new(), sent: false };
        assert(names_of(h.headers@) =~= Seq::empty());
        assert(values_of(h.headers@) =~= Seq::empty());
        h
    }

    /// Sets the status code.
    pub fn set_status(&mut self, status: u16)
        ensures
            final(self).spec_sent() == old(self).spec_sent(),
            final(self).spec_status() == status,
            final(self).spec_status_message() == old(self).spec_status_message(),
            final(self).spec_names() == old(self).spec_names(),
            final(self).spec_values() == old(self).spec_values(),
    {
        self.status = status;
    }

    /// Sets the status message.
    pub fn set_status_message(&mut self, message: String)
        ensures
            final(self).spec_sent() == old(self).spec_sent(),
            final(self).spec_status() == old(self).spec_status(),
            final(self).spec_status_message() == Some(message@),
            final(self).spec_names() == old(self).spec_names(),
            final(self).spec_values() == old(self).spec_values(),
    {
        self.status_message = Some(message);
    }

    /// Sets a header. A header whose name is the same ignoring case keeps
    /// its name and takes the new value; otherwise the header is inserted
    /// after every name that sorts before it.
    pub fn set_header(&mut self, name: String, value: String)
        ensures
            final(self).spec_sent() == old(self).spec_sent(),
            final(self).spec_status() == old(self).spec_status(),
            final(self).spec_status_message() == old(self).spec_status_message(),
            match first_same(old(self).spec_names(), name@) {
                Some(k) => final(self).spec_names() == old(self).spec_names()
                    && final(self).spec_values() == old(self).spec_values().update(k, value@),
                None => exists|p: int| insert_position(old(self).spec_names(), name@, p)
                    && final(self).spec_names() == old(self).spec_names().insert(p, name@)
                    && final(self).spec_values() == old(self).spec_values().insert(p, value@),
            },
    {
        let ghost names0 = names_of(self.headers@);
        let ghost values0 = values_of(self.headers@);
        let ghost status0 = self.spec_status();
        let ghost message0 = self.spec_status_message();
        let mut k: usize = 0;
        while k < self.headers.len()
            invariant
                k <= self.headers@.len(),
                names0 == names_of(self.headers@),
                values0 == values_of(self.headers@),
                status0 == self.spec_status(),
                message0 == self.spec_status_message(),
                status0 == old(self).spec_status(),
                message0 == old(self).spec_status_message(),
                names0 == old(self).spec_names(),
                values0 == old(self).spec_values(),
                self.sent == old(self).sent,
                forall|j: int| 0 <= j < k ==> !same_name(#[trigger] names0[j], name@),
            decreases self.headers.len() - k,
        {
            if uncased_eq(self.headers[k].name.as_str(), name.as_str()) {
                proof {
                    assert(is_first(names0, name@, k as int));
                    lemma_first_same_unique(names0, name@, k as int);
                }
                let mut kept_name = String::new();
                push_str(&mut kept_name, self.headers[k].name.as_str());
                self.headers.set(k, Header { name: kept_name, value });
                proof {
                    assert(names_of(self.headers@) =~= names0);
                    assert(values_of(self.headers@) =~= values0.update(k as int, value@));
                }
                return;
            }
            k = k + 1;
        }
        proof {
            lemma_first_same_none(names0, name@);
        }
        let mut p: usize = 0;
        while p < self.headers.len() && uncased_lt(self.headers[p].name.as_str(), name.as_str())
            invariant
                p <= self.headers@.len(),
                names0 == names_of(self.headers@),
                values0 == values_of(self.headers@),
                status0 == self.spec_status(),
                message0 == self.spec_status_message(),
                self.sent == old(self).sent,
                forall|j: int| 0 <= j < p ==> name_before(#[trigger] names0[j], name@),
            decreases self.headers.len() - p,
        {
            p = p + 1;
        }
        let ghost name_view = name@;
        let ghost value_view = value@;
        self.headers.insert(p, Header { name, value });
        proof {
            assert(insert_position(names0, name_view, p as int));
            assert(names_of(self.headers@) =~= names0.insert(p as int, name_view));
            assert(values_of(self.headers@) =~= values0.insert(p as int, value_view));
        }
    }
}

/// A header set on a table reads back: afterwards the first header whose
/// name is the same ignoring case holds the value set, and the table has
/// grown by one exactly when no such header was there before.
pub proof fn lemma_header_read_after_set(names0: Seq<Seq<char>>, values0: Seq<Seq<char>>,
    names: Seq<Seq<char>>, values: Seq<Seq<char>>, name: Seq<char>, value: Seq<char>)
    requires
        names0.len() == values0.len(),
        match first_same(names0, name) {
            Some(k) => names == names0 && values == values0.update(k, value),
            None => exists|p: int| insert_position(names0, name, p)
                && names == names0.insert(p, name)
                && values == values0.insert(p, value),
        },
    ensures
        first_same(names, name) matches Some(k) && values[k] == value,
        names.len() == names0.len() + if first_same(names0, name) is None { 1int } else { 0int },
{
    match first_same(names0, name) {
        Some(k) => {
            let c = choose|c: int| is_first(names0, name, c);
            assert(is_first(names0, name, c));
            lemma_first_same_unique(names0, name, k);
        },
        None => {
            let p = choose|p: int| insert_position(names0, name, p)
                && names == names0.insert(p, name)
                && values == values0.insert(p, value);
            assert forall|j: int| 0 <= j < p implies !same_name(#[trigger] names[j], name) by {
                assert(names[j] == names0[j]);
                if same_name(names0[j], name) {
                    assert(is_first(names0, name, j) || exists|c: int| is_first(names0, name, c)) by {
                        lemma_some_first(names0, name, j);
                    }
                }
            }
            assert(same_name(names[p], name));
            assert(is_first(names, name, p));
            lemma_first_same_unique(names, name, p);
        },
    }
}

/// When some position has the name, a first one does.
proof fn lemma_some_first(names: Seq<Seq<char>>, name: Seq<char>, j: int)
    requires
        0 <= j < names.len(),
        same_name(names[j], name),
    ensures
        exists|c: int| is_first(names, name, c),
    decreases j,
{
    if forall|i: int| 0 <= i < j ==> !same_name(#[trigger] names[i], name) {
        assert(is_first(names, name, j));
    } else {
        let i = choose|i: int| 0 <= i < j && same_name(#[trigger] names[i], name);
        lemma_some_first(names, name, i);
    }
}

/// `k` is the first position whose name is `name`, ignoring case.
pub open spec fn is_first(names: Seq<Seq<char>>, name: Seq<char>, k: int) -> bool {
    &&& 0 <= k < names.len()
    &&& same_name(names[k], name)
    &&& forall|j: int| 0 <= j < k ==> !same_name(#[trigger] names[j], name)
}

/// The first position whose name is `name`, ignoring case, if any.
pub open spec fn first_same(names: Seq<Seq<char>>, name: Seq<char>) -> Option<int> {
    if exists|k: int| is_first(names, name, k) {
        Some(choose|k: int| is_first(names, name, k))
    } else {
        None
    }
}

proof fn lemma_first_same_unique(names: Seq<Seq<char>>, name: Seq<char>, k: int)
    requires
        is_first(names, name, k),
    ensures
        first_same(names, name) == Some(k),
{
    let c = choose|c: int| is_first(names, name, c);
    assert(is_first(names, name, c));
    if c < k {
        assert(!same_name(names[c], name));
    } else if k < c {
        assert(!same_name(names[k], name));
    }
}

proof fn lemma_first_same_none(names: Seq<Seq<char>>, name: Seq<char>)
    requires
        forall|j: int| 0 <= j < names.len() ==> !same_name(#[trigger] names[j], name),
    ensures
        first_same(names, name) is None,
{
    if exists|k: int| is_first(names, name, k) {
        let c = choose|k: int| is_first(names, name, k);
        assert(same_name(names[c], name));
    }
}

// ---------------------------------------------------------------------------
// Sending the headers
// ---------------------------------------------------------------------------

/// Where a response is in its life cycle.
#[derive(Debug, Clone, Copy, PartialEq, Eq, Structural)]
pub enum ResponseState {
    /// Nothing sent.
    New,
    /// The status and headers have been handed to the server.
    HeadersSent,
    /// Body data has been sent.
    Opened,
    /// The response is complete.
    Closed,
}

/// What is handed to the native server when the headers are sent: the
/// status line, the content type, and the other headers in table order.
pub struct HeaderPlan {
    pub status: String,
    pub content_type: Option<String>,
    pub headers: Vec<Header>,
}

/// The status line: the code, then a space and the message when there is
/// one.
pub open spec fn status_text(status: u16, message: Option<Seq<char>>) -> Seq<char> {
    match message {
        Some(m) => decimal(status as nat) + seq![' '] + m,
        None => decimal(status as nat),
    }
}

/// The header table `names`, `values` after the session cookie `name` is set
/// to `id` in its `cookies` header, from the table `names0`, `values0`.
pub open spec fn cookie_added(names0: Seq<Seq<char>>, values0: Seq<Seq<char>>, names: Seq<Seq<char>>, values: Seq<Seq<char>>,
    name: Seq<char>, id: Seq<char>) -> bool {
    let current = match first_same(names0, cookies_header_name()) {
        Some(k) => values0[k],
        None => Seq::<char>::empty(),
    };
    let v = cookies_with(current, name, id);
    match first_same(names0, cookies_header_name()) {
        Some(k) => names == names0 && values == values0.update(k, v),
        None => exists|p: int| #[trigger] insert_position(names0, cookies_header_name(), p)
            && names == names0.insert(p, cookies_header_name())
            && values == values0.insert(p, v),
    }
}

/// The name of the header the session cookie is sent in.
pub open spec fn cookies_header_name() -> Seq<char> {
    seq!['c', 'o', 'o', 'k', 'i', 'e', 's']
}

/// Why headers could not be sent.
#[derive(Debug, Clone, Copy, PartialEq, Eq, Structural)]
pub enum HeadersError {
    /// A string handed to C holds a NUL character (the server then panics).
    InteriorNul,
}

/// Whether `r` is what sending a response with this status, message and
/// header table hands to the server.
pub open spec fn is_plan_of(r: Result<HeaderPlan, HeadersError>, status_code: u16, message: Option<Seq<char>>,
    names: Seq<Seq<char>>, values: Seq<Seq<char>>) -> bool {
    let status = status_text(status_code, message);
    if has_nul(status) || !table_c_compatible(names, values) {
        r == Err::<HeaderPlan, HeadersError>(HeadersError::InteriorNul)
    } else {
        r matches Ok(plan) && plan.status@ == status
            && match plan.content_type {
                Some(t) => content_type_of(names, values, names.len()) == Some(t@),
                None => content_type_of(names, values, names.len()) is None,
            }
            && plan.headers@.map_values(|h: Header| (h.name@, h.value@)) == plain_headers(names, values, names.len())
    }
}

/// Whether a name is `Content-Type`, ignoring case.
pub open spec fn is_content_type(name: Seq<char>) -> bool {
    same_name(name, seq!['C', 'o', 'n', 't', 'e', 'n', 't', '-', 'T', 'y', 'p', 'e'])
}

/// Whether a name is `Content-Length`, ignoring case.
pub open spec fn is_content_length(name: Seq<char>) -> bool {
    same_name(name, seq!['C', 'o', 'n', 't', 'e', 'n', 't', '-', 'L', 'e', 'n', 'g', 't', 'h'])
}

/// The plain headers handed to the server: all but the content type and the
/// content length, in table order.
pub open spec fn plain_headers(names: Seq<Seq<char>>, values: Seq<Seq<char>>, n: nat) -> Seq<(Seq<char>, Seq<char>)>
    decreases n,
{
    if n == 0 {
        Seq::empty()
    } else {
        let k = n - 1;
        let rest = plain_headers(names, values, (n - 1) as nat);
        if is_content_type(names[k]) || is_content_length(names[k]) {
            rest
        } else {
            rest.push((names[k], values[k]))
        }
    }
}

/// The value of the last content-type header among the first `n`.
pub open spec fn content_type_of(names: Seq<Seq<char>>, values: Seq<Seq<char>>, n: nat) -> Option<Seq<char>>
    decreases n,
{
    if n == 0 {
        None
    } else if is_content_type(names[n - 1]) {
        Some(values[n - 1])
    } else {
        content_type_of(names, values, (n - 1) as nat)
    }
}

/// Whether every string of the table is free of NUL characters.
pub open spec fn table_c_compatible(names: Seq<Seq<char>>, values: Seq<Seq<char>>) -> bool {
    forall|k: int| 0 <= k < names.len() ==> !has_nul(#[trigger] names[k]) && !has_nul(values[k])
}

impl ResponseHeaders {
    /// Adds the session cookie: the `cookies` header becomes its current
    /// value (or the empty string) with the session cookie set to
    /// `session_id`.
    pub fn add_session_cookie(&mut self, session_cookie_name: &str, session_id: &str)
        ensures
            final(self).spec_sent() == old(self).spec_sent(),
            final(self).spec_status() == old(self).spec_status(),
            final(self).spec_status_message() == old(self).spec_status_message(),
            cookie_added(old(self).spec_names(), old(self).spec_values(), final(self).spec_names(), final(self).spec_values(),
                session_cookie_name@, session_id@),
            cookie_text(session_cookie_name@) && cookie_text(session_id@) ==> (first_same(
                final(self).spec_names(),
                cookies_header_name(),
            ) matches Some(k) && cookie_value(final(self).spec_values()[k], session_cookie_name@) == Some(session_id@)),
    {
        let mut key = String::new();
        push_str(&mut key, "cookies");
        proof {
            reveal_strlit("cookies");
        }
        assert(key@ =~= cookies_header_name());
        let ghost names0 = names_of(self.headers@);
        let ghost values0 = values_of(self.headers@);
        let ghost status0 = self.spec_status();
        let ghost message0 = self.spec_status_message();
        let mut current = String::new();
        let mut k: usize = 0;
        let mut found = false;
        while k < self.headers.len()
            invariant
                k <= self.headers@.len(),
                status0 == self.spec_status(),
                message0 == self.spec_status_message(),
                names0 == names_of(self.headers@),
                values0 == values_of(self.headers@),
                key@ == cookies_header_name(),
                !found ==> current@ == Seq::<char>::empty(),
                !found ==> forall|j: int| 0 <= j < k ==> !same_name(#[trigger] names0[j], key@),
                found ==> (first_same(names0, key@) matches Some(f) && current@ == values0[f]),
            decreases self.headers.len() - k,
        {
            if !found && uncased_eq(self.headers[k].name.as_str(), key.as_str()) {
                proof {
                    assert(is_first(names0, key@, k as int));
                    lemma_first_same_unique(names0, key@, k as int);
                }
                push_str(&mut current, self.headers[k].value.as_str());
                found = true;
            }
            k = k + 1;
        }
        if !found {
            proof {
                lemma_first_same_none(names0, key@);
            }
        }
        let ghost cur_spec = match first_same(names0, cookies_header_name()) {
            Some(f) => values0[f],
            None => Seq::<char>::empty(),
        };
        assert(current@ == cur_spec);
        let v = set_cookie(current.as_str(), session_cookie_name, session_id);
        proof {
            if cookie_text(session_cookie_name@) && cookie_text(session_id@) {
                lemma_cookie_read_back(current@, session_cookie_name@, session_id@);
            }
        }
        let ghost vv = v@;
        let ghost kk = key@;
        self.set_header(key, v);
        proof {
            lemma_header_read_after_set(names0, values0, self.spec_names(), self.spec_values(), kk, vv);
            if first_same(names0, kk) is None {
                let p = choose|p: int| insert_position(names0, kk, p)
                    && self.spec_names() == names0.insert(p, kk)
                    && self.spec_values() == values0.insert(p, vv);
                assert(insert_position(names0, cookies_header_name(), p));
            }
        }
    }

    /// Sends the headers of a response, until they have been taken. While
    /// they are pending (`headers_sent` not yet called), a call moves the
    /// response `state` to `HeadersSent`, adds the session cookie when a
    /// session id is given (see `add_session_cookie`), and gives the plan
    /// built from the resulting headers (see `plan`); a caller whose native
    /// calls fail leaves them pending, so a later call hands them over again.
    /// Once they have been taken, a call hands nothing over (`Ok(None)`) and
    /// changes nothing.
    pub fn send_headers(&mut self, session: Option<(&str, &str)>, state: &mut ResponseState) -> (r: Result<
        Option<HeaderPlan>,
        HeadersError,
    >)
        ensures
            final(self).spec_sent() == old(self).spec_sent(),
            final(self).spec_status() == old(self).spec_status(),
            final(self).spec_status_message() == old(self).spec_status_message(),
            old(self).spec_sent() ==> (r matches Ok(None)) && *final(state) == *old(state)
                && final(self).spec_names() == old(self).spec_names()
                && final(self).spec_values() == old(self).spec_values(),
            !old(self).spec_sent() ==> *final(state) == ResponseState::HeadersSent,
            !old(self).spec_sent() && session is None ==> final(self).spec_names() == old(self).spec_names()
                && final(self).spec_values() == old(self).spec_values(),
            !old(self).spec_sent() ==> match session {
                Some((n, id)) => cookie_added(
                    old(self).spec_names(),
                    old(self).spec_values(),
                    final(self).spec_names(),
                    final(self).spec_values(),
                    n@,
                    id@,
                ),
                None => true,
            },
            !old(self).spec_sent() ==> match r {
                Ok(Some(p)) => is_plan_of(Ok(p), final(self).spec_status(), final(self).spec_status_message(),
                    final(self).spec_names(), final(self).spec_values()),
                Err(e) => is_plan_of(Err(e), final(self).spec_status(), final(self).spec_status_message(),
                    final(self).spec_names(), final(self).spec_values()),
                Ok(None) => false,
            },
    {
        if self.sent {
            return Ok(None);
        }
        *state = ResponseState::HeadersSent;
        match session {
            Some((cookie_name, id)) => self.add_session_cookie(cookie_name, id),
            None => {},
        }
        match self.plan() {
            Ok(p) => Ok(Some(p)),
            Err(e) => Err(e),
        }
    }

    /// Records that the native server took the status and headers handed
    /// over; later sends hand nothing over.
    pub fn headers_sent(&mut self)
        ensures
            final(self).spec_sent(),
            final(self).spec_status() == old(self).spec_status(),
            final(self).spec_status_message() == old(self).spec_status_message(),
            final(self).spec_names() == old(self).spec_names(),
            final(self).spec_values() == old(self).spec_values(),
    {
        self.sent = true;
    }

    /// What sending these headers hands to the native server: the status
    /// line, the content type, and the other headers but the content length,
    /// in table order. Refused when a string to hand to C holds a NUL
    /// character.
    pub fn plan(&self) -> (r: Result<HeaderPlan, HeadersError>)
        ensures
            is_plan_of(r, self.spec_status(), self.spec_status_message(), self.spec_names(), self.spec_values()),
    {
        let mut status = String::new();
        push_decimal(&mut status, self.status as u64);
        match &self.status_message {
            Some(m) => {
                push_char(&mut status, ' ');
                push_str(&mut status, m.as_str());
            },
            None => {},
        }
        assert(status@ =~= status_text(self.spec_status(), self.spec_status_message()));
        if !is_c_compatible(status.as_str()) {
            return Err(HeadersError::InteriorNul);
        }
        let ghost names = names_of(self.headers@);
        let ghost values = values_of(self.headers@);
        let mut k: usize = 0;
        while k < self.headers.len()
            invariant
                k <= self.headers@.len(),
                names == names_of(self.headers@),
                values == values_of(self.headers@),
                forall|j: int| 0 <= j < k ==> !has_nul(#[trigger] names[j]) && !has_nul(values[j]),
            decreases self.headers.len() - k,
        {
            let name_ok = is_c_compatible(self.headers[k].name.as_str());
            let value_ok = is_c_compatible(self.headers[k].value.as_str());
            if !name_ok || !value_ok {
                proof {
                    assert(self.headers@[k as int].name@ == names[k as int]);
                    assert(self.headers@[k as int].value@ == values[k as int]);
                    assert(!(!has_nul(names[k as int]) && !has_nul(values[k as int])));
                }
                return Err(HeadersError::InteriorNul);
            }
            proof {
                assert(self.headers@[k as int].name@ == names[k as int]);
                assert(self.headers@[k as int].value@ == values[k as int]);
                assert(!has_nul(names[k as int]) && !has_nul(values[k as int]));
                assert forall|j: int| 0 <= j < k + 1 implies !has_nul(#[trigger] names[j]) && !has_nul(values[j]) by {
                    if j < k {
                    } else {
                        assert(j == k);
                    }
                }
            }
            k = k + 1;
        }
        let mut content_type: Option<String> = None;
        let mut plain: Vec<Header> = Vec::new();
        let mut ct_name = String::new();
        push_str(&mut ct_name, "Content-Type");
        let mut cl_name = String::new();
        push_str(&mut cl_name, "Content-Length");
        proof {
            reveal_strlit("Content-Type");
            reveal_strlit("Content-Length");
        }
        assert(ct_name@ =~= seq!['C', 'o', 'n', 't', 'e', 'n', 't', '-', 'T', 'y', 'p', 'e']);
        assert(cl_name@ =~= seq!['C', 'o', 'n', 't', 'e', 'n', 't', '-', 'L', 'e', 'n', 'g', 't', 'h']);
        let mut i: usize = 0;
        while i < self.headers.len()
            invariant
                i <= self.headers@.len(),
                names == names_of(self.headers@),
                values == values_of(self.headers@),
                ct_name@ == seq!['C', 'o', 'n', 't', 'e', 'n', 't', '-', 'T', 'y', 'p', 'e'],
                cl_name@ == seq!['C', 'o', 'n', 't', 'e', 'n', 't', '-', 'L', 'e', 'n', 'g', 't', 'h'],
                match content_type {
                    Some(t) => content_type_of(names, values, i as nat) == Some(t@),
                    None => content_type_of(names, values, i as nat) is None,
                },
                plain@.map_values(|h: Header| (h.name@, h.value@)) == plain_headers(names, values, i as nat),
            decreases self.headers.len() - i,
        {
            let name = self.headers[i].name.as_str();
            let value = self.headers[i].value.as_str();
            let ghost before = plain@;
            if uncased_eq(name, ct_name.as_str()) {
                let mut t = String::new();
                push_str(&mut t, value);
                content_type = Some(t);
            } else if uncased_eq(name, cl_name.as_str()) {
            } else {
                let mut n2 = String::new();
                push_str(&mut n2, name);
                let mut v2 = String::new();
                push_str(&mut v2, value);
                plain.push(Header { name: n2, value: v2 });
                proof {
                    assert(plain@.map_values(|h: Header| (h.name@, h.value@))
                        =~= before.map_values(|h: Header| (h.name@, h.value@)).push((names[i as int], values[i as int])));
                }
            }
            proof {
                assert(same_name(names[i as int], ct_name@) == is_content_type(names[i as int]));
                assert(same_name(names[i as int], cl_name@) == is_content_length(names[i as int]));
            }
            i = i + 1;
        }
        Ok(HeaderPlan { status, content_type, headers: plain })
    }
}

// ---------------------------------------------------------------------------
// The response's life cycle
// ---------------------------------------------------------------------------

/// The state after a write of `len` bytes succeeded: an empty write changes
/// nothing (and sends nothing); any other write opens the body.
pub open spec fn state_after_write(state: ResponseState, len: nat) -> ResponseState {
    if len == 0 { state } else { ResponseState::Opened }
}

/// The state after a write of `len` bytes succeeded.
pub fn after_write(state: ResponseState, len: usize) -> (s: ResponseState)
    ensures
        s == state_after_write(state, len as nat),
{
    if len == 0 { state } else { ResponseState::Opened }
}

/// Whether a failed handler gets the internal-error page: only when nothing
/// of its response has been sent; otherwise the error is only reported.
pub fn renders_error_page(state: ResponseState) -> (b: bool)
    ensures
        b == (state == ResponseState::New),
{
    match state {
        ResponseState::New => true,
        _ => false,
    }
}

/// Status of the internal-error page.
pub const ERROR_PAGE_STATUS: u16 = 500;

/// The internal-error page for an error that displays as `display` and
/// debug-prints as `debug`: an HTML page with the first as its heading and
/// the second preformatted below it.
pub open spec fn error_page_text(display: Seq<char>, debug: Seq<char>) -> Seq<char> {
    "\n                    <!DOCTYPE html5>\n                    <html>\n                        <body style=\"font-family: Verdana, Sans;\">\n                            <h1>INTERNAL ERROR</h1>\n                            <h2>"@ + display + "</h2>\n                            <hr>\n                            <pre>"@ + debug + "</pre>\n                        <body>\n                    </html>\n                "@
}

/// The body of the internal-error page (see `error_page_text`), sent with
/// status `ERROR_PAGE_STATUS` and content type `text/html`.
pub fn error_page(display: &str, debug: &str) -> (page: String)
    ensures
        page@ == error_page_text(display@, debug@),
{
    let mut page = String::new();
    push_str(&mut page, "\n                    <!DOCTYPE html5>\n                    <html>\n                        <body style=\"font-family: Verdana, Sans;\">\n                            <h1>INTERNAL ERROR</h1>\n                            <h2>");
    push_str(&mut page, display);
    push_str(&mut page, "</h2>\n                            <hr>\n                            <pre>");
    push_str(&mut page, debug);
    push_str(&mut page, "</pre>\n                        <body>\n                    </html>\n                ");
    page
}

// ---------------------------------------------------------------------------
// WebSocket frames
// ---------------------------------------------------------------------------

/// Native frame type: continuation.
pub const HTTPD_WS_TYPE_CONTINUE: u8 = 0x0;
/// Native frame type: text.
pub const HTTPD_WS_TYPE_TEXT: u8 = 0x1;
/// Native frame type: binary.
pub const HTTPD_WS_TYPE_BINARY: u8 = 0x2;
/// Native frame type: close.
pub const HTTPD_WS_TYPE_CLOSE: u8 = 0x8;
/// Native frame type: ping.
pub const HTTPD_WS_TYPE_PING: u8 = 0x9;
/// Native frame type: pong.
pub const HTTPD_WS_TYPE_PONG: u8 = 0xA;

/// A WebSocket frame's type; the flag of a data frame says whether more
/// fragments follow.
#[derive(Debug, Clone, Copy, PartialEq, Eq, Structural)]
pub enum FrameType {
    Text(bool),
    Binary(bool),
    Ping,
    Pong,
    Close,
    SocketClose,
    Continue(bool),
}

/// Whether a frame is a fragment that others follow.
pub open spec fn is_partial(t: FrameType) -> bool {
    match t {
        FrameType::Text(p) => p,
        FrameType::Binary(p) => p,
        FrameType::Continue(p) => p,
        _ => false,
    }
}

/// The header of a frame handed to the native server.
#[derive(Debug, Clone, Copy, PartialEq, Eq, Structural)]
pub struct RawFrame {
    pub type_: u8,
    pub final_: bool,
    pub fragmented: bool,
    pub len: usize,
}

/// The native frame for sending a frame of type `t` with `len` payload
/// bytes. A partial frame is sent fragmented and not final, so that more
/// fragments follow it; a complete one is sent final and unfragmented.
pub open spec fn raw_frame_of(t: FrameType, len: usize) -> RawFrame {
    RawFrame {
        type_: match t {
            FrameType::Text(_) => HTTPD_WS_TYPE_TEXT,
            FrameType::Binary(_) => HTTPD_WS_TYPE_BINARY,
            FrameType::Ping => HTTPD_WS_TYPE_PING,
            FrameType::Pong => HTTPD_WS_TYPE_PONG,
            FrameType::Close => HTTPD_WS_TYPE_CLOSE,
            _ => HTTPD_WS_TYPE_CONTINUE,
        },
        final_: !is_partial(t),
        fragmented: is_partial(t),
        len: len,
    }
}

/// The native frame for sending a frame (see `raw_frame_of`). A socket
/// close is not a frame and cannot be sent.
pub fn create_raw_frame(t: FrameType, len: usize) -> (r: RawFrame)
    requires
        t != FrameType::SocketClose,
    ensures
        r == raw_frame_of(t, len),
{
    let (type_, partial) = match t {
        FrameType::Text(p) => (HTTPD_WS_TYPE_TEXT, p),
        FrameType::Binary(p) => (HTTPD_WS_TYPE_BINARY, p),
        FrameType::Ping => (HTTPD_WS_TYPE_PING, false),
        FrameType::Pong => (HTTPD_WS_TYPE_PONG, false),
        FrameType::Close => (HTTPD_WS_TYPE_CLOSE, false),
        FrameType::Continue(p) => (HTTPD_WS_TYPE_CONTINUE, p),
        FrameType::SocketClose => (HTTPD_WS_TYPE_CONTINUE, false),
    };
    RawFrame { type_, final_: !partial, fragmented: partial, len }
}

/// The frame type of a received native frame and the buffer size its
/// payload needs (a text payload needs one more byte, for the terminating
/// zero; control frames are read without a payload); `None` for an unknown
/// native type. A frame is partial when it is fragmented and not final.
pub open spec fn frame_type_of(raw: RawFrame) -> Option<(FrameType, usize)> {
    let partial = raw.fragmented && !raw.final_;
    if raw.type_ == HTTPD_WS_TYPE_TEXT {
        Some((FrameType::Text(partial), (raw.len + 1) as usize))
    } else if raw.type_ == HTTPD_WS_TYPE_BINARY {
        Some((FrameType::Binary(partial), raw.len))
    } else if raw.type_ == HTTPD_WS_TYPE_CONTINUE {
        Some((FrameType::Continue(partial), raw.len))
    } else if raw.type_ == HTTPD_WS_TYPE_PING {
        Some((FrameType::Ping, 0usize))
    } else if raw.type_ == HTTPD_WS_TYPE_PONG {
        Some((FrameType::Pong, 0usize))
    } else if raw.type_ == HTTPD_WS_TYPE_CLOSE {
        Some((FrameType::Close, 0usize))
    } else {
        None
    }
}

/// The frame type of a received native frame (see `frame_type_of`).
pub fn create_frame_type(raw: RawFrame) -> (r: Option<(FrameType, usize)>)
    requires
        raw.len < usize::MAX,
    ensures
        r == frame_type_of(raw),
{
    let partial = raw.fragmented && !raw.final_;
    if raw.type_ == HTTPD_WS_TYPE_TEXT {
        Some((FrameType::Text(partial), raw.len + 1))
    } else if raw.type_ == HTTPD_WS_TYPE_BINARY {
        Some((FrameType::Binary(partial), raw.len))
    } else if raw.type_ == HTTPD_WS_TYPE_CONTINUE {
        Some((FrameType::Continue(partial), raw.len))
    } else if raw.type_ == HTTPD_WS_TYPE_PING {
        Some((FrameType::Ping, 0))
    } else if raw.type_ == HTTPD_WS_TYPE_PONG {
        Some((FrameType::Pong, 0))
    } else if raw.type_ == HTTPD_WS_TYPE_CLOSE {
        Some((FrameType::Close, 0))
    } else {
        None
    }
}

/// A frame sent is read back as the same type, partial or not: the native
/// frame built for sending it is classified as that type, with the payload
/// size reading it needs (one more byte for text, none for control frames).
pub proof fn lemma_frame_type_round_trip(t: FrameType, len: usize)
    requires
        t != FrameType::SocketClose,
        len < usize::MAX,
    ensures
        frame_type_of(raw_frame_of(t, len)) == Some((t, match t {
            FrameType::Text(_) => (len + 1) as usize,
            FrameType::Binary(_) => len,
            FrameType::Continue(_) => len,
            _ => 0usize,
        })),
{
}

/// Frames go to and come from the native server under their WebSocket
/// opcodes: continuation 0, text 1, binary 2, close 8, ping 9, pong 10,
/// whatever the payload length and fragmentation; and a received frame with
/// one of these opcodes is read as the frame type of that opcode.
pub proof fn lemma_frame_opcodes(p: bool, len: usize, raw: RawFrame)
    ensures
        raw_frame_of(FrameType::Continue(p), len).type_ == 0u8,
        raw_frame_of(FrameType::Text(p), len).type_ == 1u8,
        raw_frame_of(FrameType::Binary(p), len).type_ == 2u8,
        raw_frame_of(FrameType::Close, len).type_ == 8u8,
        raw_frame_of(FrameType::Ping, len).type_ == 9u8,
        raw_frame_of(FrameType::Pong, len).type_ == 10u8,
        raw_frame_of(FrameType::Continue(p), len).len == len,
        raw.type_ == 0u8 ==> frame_type_of(raw) == Some((FrameType::Continue(raw.fragmented && !raw.final_), raw.len)),
        raw.type_ == 1u8 && raw.len < usize::MAX ==> frame_type_of(raw) == Some((FrameType::Text(raw.fragmented && !raw.final_), (raw.len + 1) as usize)),
        raw.type_ == 2u8 ==> frame_type_of(raw) == Some((FrameType::Binary(raw.fragmented && !raw.final_), raw.len)),
        raw.type_ == 8u8 ==> frame_type_of(raw) == Some((FrameType::Close, 0usize)),
        raw.type_ == 9u8 ==> frame_type_of(raw) == Some((FrameType::Ping, 0usize)),
        raw.type_ == 10u8 ==> frame_type_of(raw) == Some((FrameType::Pong, 0usize)),
        !(raw.type_ == 0u8 || raw.type_ == 1u8 || raw.type_ == 2u8 || raw.type_ == 8u8 || raw.type_ == 9u8
            || raw.type_ == 10u8) ==> frame_type_of(raw) is None,
{
}

/// Whether a received frame's payload is read into the caller's buffer: only
/// when the buffer holds the size the frame needs.
pub fn payload_fits(buf_len: usize, needed: usize) -> (b: bool)
    ensures
        b == (buf_len >= needed),
{
    buf_len >= needed
}

/// The status a queued detached send reports: `ESP_FAIL` once the session
/// is closed, else the status of sending the frame, which `send` performs
/// and which is not attempted on a closed session.
pub fn detached_frame_status<F: Fn() -> i32>(closed: bool, send: &F) -> (r: i32)
    requires
        call_requires(*send, ()),
    ensures
        closed ==> r == ESP_FAIL,
        !closed ==> call_ensures(*send, (), r),
{
    if !closed {
        send()
    } else {
        ESP_FAIL
    }
}

/// What a detached send returns, by its native status: an `ESP_FAIL` error
/// on a closed session; else the error of queueing the work, if it failed;
/// else the error of the frame's send, if it failed; else `Ok`.
pub open spec fn detached_send_outcome(closed: bool, queue_status: i32, frame_status: i32) -> Result<(), i32> {
    if closed {
        Err(ESP_FAIL)
    } else if queue_status != ESP_OK {
        Err(queue_status)
    } else if frame_status != ESP_OK {
        Err(frame_status)
    } else {
        Ok(())
    }
}

/// What a detached send returns (see `detached_send_outcome`).
pub fn detached_send_result(closed: bool, queue_status: i32, frame_status: i32) -> (r: Result<(), EspError>)
    ensures
        match r {
            Ok(()) => detached_send_outcome(closed, queue_status, frame_status) == Ok::<(), i32>(()),
            Err(e) => detached_send_outcome(closed, queue_status, frame_status) == Err::<(), i32>(e.spec_code()),
        },
{
    if closed {
        Err(EspError::from_non_zero(ESP_FAIL))
    } else if queue_status != ESP_OK {
        Err(EspError::from_non_zero(queue_status))
    } else if frame_status != ESP_OK {
        Err(EspError::from_non_zero(frame_status))
    } else {
        Ok(())
    }
}

} // verus!
