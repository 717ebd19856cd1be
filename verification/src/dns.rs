//! The captive-portal DNS responder: it answers every `A` question of a
//! standard query with the address of the access-point interface.
//!
//! Multi-byte header fields are read the way the little-endian ESP chips read
//! them: a native 16-bit load of the wire bytes `b0, b1` yields `b0 | b1 << 8`.

use vstd::prelude::*;

use crate::error::EspError;

verus! {

/// The UDP port the responder listens on.
pub const DNS_PORT: u16 = 53;

/// Size of the reply buffer the server task uses.
pub const DNS_MAX_LEN: usize = 256;

/// Size of the DNS header.
pub const DNS_HEADER_LEN: usize = 12;

/// Size of one answer record written into the reply.
pub const DNS_ANSWER_LEN: usize = 16;

/// Size of the buffer a question name is parsed into.
pub const DNS_NAME_MAX_LEN: usize = 128;

/// Time to live of every answer, in seconds.
pub const ANS_TTL_SEC: u32 = 300;

// ---------------------------------------------------------------------------
// Question names
// ---------------------------------------------------------------------------

/// Walks the length-prefixed labels of a name that starts at `start` in
/// `buf`, with `used` bytes of the `cap`-byte name budget already taken.
///
/// Each label of length `n` costs `n + 1` bytes of the budget and contributes
/// its `n` bytes followed by a `'.'`; after a label, a zero byte ends the name.
/// The walk fails as soon as the budget would be exceeded, or when a byte it
/// has to read lies outside `buf`. On success it gives the position just past
/// the terminating zero and the labels read from position `start + used` on.
pub open spec fn name_walk(buf: Seq<u8>, start: int, used: int, cap: int) -> Option<(int, Seq<u8>)>
    decreases cap - used,
{
    let pos = start + used;
    if pos < 0 || pos >= buf.len() || used < 0 {
        None
    } else {
        let len = buf[pos] as int;
        let used2 = used + len + 1;
        let next = pos + len + 1;
        if used2 > cap || next >= buf.len() {
            None
        } else {
            let label = buf.subrange(pos + 1, pos + 1 + len).push(0x2eu8);
            if buf[next] == 0 {
                Some((next + 1, label))
            } else {
                match name_walk(buf, start, used2, cap) {
                    Some((e, rest)) => Some((e, label + rest)),
                    None => None,
                }
            }
        }
    }
}

/// The parsed name a successful walk yields: the labels joined by `'.'`, with
/// the final `'.'` replaced by a terminating zero.
pub open spec fn terminated_name(labels: Seq<u8>) -> Seq<u8> {
    labels.update(labels.len() - 1, 0u8)
}

proof fn lemma_name_walk_bounds(buf: Seq<u8>, start: int, used: int, cap: int)
    requires
        0 <= used,
        0 <= start,
    ensures
        name_walk(buf, start, used, cap) matches Some((e, labels)) ==> {
            &&& start + used < e <= buf.len()
            &&& e - start - used == labels.len() + 1
            &&& labels.len() >= 1
            &&& labels.len() <= cap - used
        },
    decreases cap - used,
{
    let pos = start + used;
    if 0 <= pos < buf.len() {
        let len = buf[pos] as int;
        let used2 = used + len + 1;
        let next = pos + len + 1;
        if used2 <= cap && next < buf.len() && buf[next] != 0 {
            lemma_name_walk_bounds(buf, start, used2, cap);
        }
    }
}

/// Parses the question name that starts at `start` in `raw`, into at most
/// `max_len` bytes.
///
/// Returns the position just past the name's terminating zero and the parsed
/// name (dotted, zero-terminated), or `None` when the name does not fit, in
/// the budget or in `raw`.
fn parse_dns_name(raw: &[u8], start: usize, max_len: usize) -> (r: Option<(usize, Vec<u8>)>)
    ensures
        r is Some <==> name_walk(raw@, start as int, 0, max_len as int) is Some,
        r matches Some((end, name)) ==> {
            let (e, labels) = name_walk(raw@, start as int, 0, max_len as int)->0;
            &&& end == e
            &&& name@ == terminated_name(labels)
        },
{
    let mut name: Vec<u8> = Vec::new();
    let mut used: usize = 0;
    proof {
        assert(name@ + Seq::<u8>::empty() == name@);
    }
    loop
        invariant
            used <= max_len,
            name@.len() == used,
            name_walk(raw@, start as int, 0, max_len as int) == match name_walk(raw@, start as int, used as int, max_len as int) {
                Some((e, rest)) => Some((e, name@ + rest)),
                None => None,
            },
        decreases max_len - used,
    {
        if start >= raw.len() || used >= raw.len() - start {
            return None;
        }
        let pos = start + used;
        let len = raw[pos] as usize;
        if len + 1 > max_len - used || len + 1 >= raw.len() - pos {
            return None;
        }
        let ghost old_name = name@;
        let mut i: usize = 0;
        while i < len
            invariant
                pos == start + used,
                pos + len + 1 < raw.len(),
                used + len + 1 <= max_len,
                i <= len,
                name@ == old_name + raw@.subrange(pos + 1, pos + 1 + i),
            decreases len - i,
        {
            name.push(raw[pos + 1 + i]);
            i = i + 1;
            proof {
                assert(name@ =~= old_name + raw@.subrange(pos + 1, pos + 1 + i));
            }
        }
        name.push(0x2eu8);
        let next = pos + len + 1;
        proof {
            let label = raw@.subrange(pos + 1, pos + 1 + len).push(0x2eu8);
            assert(name@ =~= old_name + label);
            let rest = name_walk(raw@, start as int, (used + len + 1) as int, max_len as int);
            if raw@[next as int] != 0 {
                match rest {
                    Some((e, r2)) => {
                        assert(old_name + (label + r2) =~= name@ + r2);
                    }
                    None => {}
                }
            }
        }
        used = used + len + 1;
        if raw[next] == 0 {
            let last = name.len() - 1;
            name.set(last, 0u8);
            return Some((next + 1, name));
        }
    }
}


// ---------------------------------------------------------------------------
// Replies
// ---------------------------------------------------------------------------

/// The two bytes of a compressed name pointer to offset `q` of the reply:
/// `0xC000 | q`, narrowed to 16 bits, in network byte order.
pub open spec fn name_pointer(q: int) -> (u8, u8) {
    ((0xC0 + (q / 256) % 64) as u8, (q % 256) as u8)
}

/// The answer record written for an `A` question that starts at offset `q`
/// and whose type and class are the wire bytes `typ` and `cls`: a compressed
/// pointer to the question's name, the question's type and class, a TTL of
/// 300 seconds, an address length of 4 and the address `ip`, all in network
/// byte order.
pub open spec fn answer_record(q: int, typ0: u8, typ1: u8, cls0: u8, cls1: u8, ip: Seq<u8>) -> Seq<u8> {
    seq![
        name_pointer(q).0, name_pointer(q).1, typ0, typ1, cls0, cls1, 0u8, 0u8, 0x01u8, 0x2Cu8, 0u8, 4u8,
        ip[0], ip[1], ip[2], ip[3],
    ]
}

/// `buf` with `rec` written over it from position `at` on.
pub open spec fn write_at(buf: Seq<u8>, at: int, rec: Seq<u8>) -> Seq<u8> {
    buf.subrange(0, at) + rec + buf.subrange(at + rec.len(), buf.len() as int)
}

/// Answers `remaining` questions on the reply buffer `buf`, the next
/// question starting at position `q` and the next answer going to position
/// `ans`.
///
/// A question is a name, walked with the 128-byte budget, followed by its
/// type and class (4 bytes); the next question follows it. A question of
/// type `A` (wire bytes `0, 1`) gets an answer record pointing at its own
/// name; any other type gets none. The whole reply fails when a name does not
/// fit or a question runs past the buffer.
pub open spec fn answer_questions(buf: Seq<u8>, remaining: nat, q: int, ans: int, ip: Seq<u8>) -> Option<Seq<u8>>
    decreases remaining,
{
    if remaining == 0 {
        Some(buf)
    } else {
        match name_walk(buf, q, 0, DNS_NAME_MAX_LEN as int) {
            None => None,
            Some((e, _labels)) => {
                if e + 4 > buf.len() {
                    None
                } else if buf[e] == 0 && buf[e + 1] == 1 {
                    let rec = answer_record(q, buf[e], buf[e + 1], buf[e + 2], buf[e + 3], ip);
                    answer_questions(write_at(buf, ans, rec), (remaining - 1) as nat, e + 4, ans + DNS_ANSWER_LEN, ip)
                } else {
                    answer_questions(buf, (remaining - 1) as nat, e + 4, ans, ip)
                }
            }
        }
    }
}

/// The question count of a request: header bytes 4 and 5, big-endian.
pub open spec fn question_count(base: Seq<u8>) -> int {
    base[4] as int * 256 + base[5] as int
}

/// The reply to the first `req_len` bytes of `req`, in a reply buffer of
/// `max_len` bytes, answering with the address `ip`.
///
/// The reply starts as a copy of the request, zero-padded to `max_len`. A
/// request that is longer than the buffer is refused, and so is one whose
/// header byte 3 has any of the bits `0x78` set (the opcode mask applied to
/// the natively loaded flags word). Otherwise the response bit `0x80` is set
/// in header byte 2, the answer count (bytes 6, 7) becomes the question
/// count, and one answer slot of 16 bytes per question is reserved after the
/// request; a reply that would not fit the buffer is refused. The answers
/// are then written (see `answer_questions`), and the reply is the request
/// length plus the reserved slots.
pub open spec fn dns_reply(req: Seq<u8>, req_len: int, max_len: int, ip: Seq<u8>) -> Option<Seq<u8>> {
    if req_len > max_len {
        None
    } else {
        let base = req.subrange(0, req_len) + Seq::new((max_len - req_len) as nat, |i: int| 0u8);
        if base[3] & 0x78u8 != 0 {
            None
        } else {
            let qd = question_count(base);
            let flagged = base.update(2, base[2] | 0x80u8).update(6, base[4]).update(7, base[5]);
            let reply_len = qd * DNS_ANSWER_LEN + req_len;
            if reply_len > max_len {
                None
            } else {
                match answer_questions(flagged, qd as nat, DNS_HEADER_LEN as int, req_len, ip) {
                    Some(b) => Some(b.subrange(0, reply_len)),
                    None => None,
                }
            }
        }
    }
}

/// Writes the answer record for the question that starts at `qstart` and
/// whose type and class sit at `q` in `buf` to position `ans`.
fn write_answer(buf: &mut Vec<u8>, ans: usize, qstart: usize, q: usize, ip_addr: &[u8; 4])
    requires
        ans + DNS_ANSWER_LEN <= old(buf).len(),
        q + 4 <= old(buf).len(),
    ensures
        final(buf)@ == write_at(
            old(buf)@,
            ans as int,
            answer_record(qstart as int, old(buf)@[q as int], old(buf)@[q + 1], old(buf)@[q + 2], old(buf)@[q + 3], ip_addr@),
        ),
{
    let typ0 = buf[q];
    let typ1 = buf[q + 1];
    let cls0 = buf[q + 2];
    let cls1 = buf[q + 3];
    let p0 = (0xC0 + (qstart / 256) % 64) as u8;
    let p1 = (qstart % 256) as u8;
    let ghost rec = answer_record(qstart as int, typ0, typ1, cls0, cls1, ip_addr@);
    let ghost before = buf@;
    let rec_bytes: [u8; 16] = [
        p0, p1, typ0, typ1, cls0, cls1, 0u8, 0u8, 0x01u8, 0x2Cu8, 0u8, 4u8,
        ip_addr[0], ip_addr[1], ip_addr[2], ip_addr[3],
    ];
    assert(rec_bytes@ =~= rec);
    let mut j: usize = 0;
    while j < DNS_ANSWER_LEN
        invariant
            ans + DNS_ANSWER_LEN <= buf.len(),
            buf@.len() == before.len(),
            rec_bytes@ == rec,
            rec.len() == DNS_ANSWER_LEN,
            j <= DNS_ANSWER_LEN,
            forall|k: int| 0 <= k < before.len() ==> #[trigger] buf@[k] == if ans <= k < ans + j { rec[k - ans] } else { before[k] },
        decreases DNS_ANSWER_LEN - j,
    {
        buf.set(ans + j, rec_bytes[j]);
        j = j + 1;
    }
    assert(buf@ =~= write_at(before, ans as int, rec));
}

/// Builds the reply to the first `req_len` bytes of `req` in a reply buffer
/// of `dns_reply_max_len` bytes, answering every `A` question with the
/// address `ip_addr` (network byte order).
///
/// Returns the reply (exactly the bytes to send), or `None` when the request
/// is refused; see `dns_reply`.
pub fn parse_dns_request(req: &[u8], req_len: usize, dns_reply_max_len: usize, ip_addr: [u8; 4]) -> (r: Option<Vec<u8>>)
    requires
        req_len <= dns_reply_max_len ==> DNS_HEADER_LEN <= req_len <= req@.len(),
    ensures
        match r {
            Some(v) => dns_reply(req@, req_len as int, dns_reply_max_len as int, ip_addr@) == Some(v@),
            None => dns_reply(req@, req_len as int, dns_reply_max_len as int, ip_addr@) is None,
        },
{
    let max_len = dns_reply_max_len;
    if req_len > max_len {
        return None;
    }
    let ghost base = req@.subrange(0, req_len as int) + Seq::new((max_len - req_len) as nat, |i: int| 0u8);

    // Prepare the reply: the request, zero-padded.
    let mut buf: Vec<u8> = Vec::new();
    let mut i: usize = 0;
    while i < max_len
        invariant
            req_len <= max_len,
            req_len <= req@.len(),
            i <= max_len,
            base == req@.subrange(0, req_len as int) + Seq::new((max_len - req_len) as nat, |i: int| 0u8),
            base.len() == max_len,
            buf@ =~= base.subrange(0, i as int),
        decreases max_len - i,
    {
        if i < req_len {
            buf.push(req[i]);
        } else {
            buf.push(0u8);
        }
        proof {
            let head = req@.subrange(0, req_len as int);
            let tail = Seq::new((max_len - req_len) as nat, |i: int| 0u8);
            assert(head.len() == req_len);
            if i < req_len {
                assert(base[i as int] == head[i as int]);
            } else {
                assert(base[i as int] == tail[i - req_len]);
            }
        }
        i = i + 1;
    }
    assert(buf@ =~= base);

    // Not a standard query.
    if buf[3] & 0x78u8 != 0 {
        return None;
    }

    // Set the response flag and the answer count.
    let f = buf[2] | 0x80u8;
    buf.set(2, f);
    let q4 = buf[4];
    let q5 = buf[5];
    buf.set(6, q4);
    buf.set(7, q5);
    let qd_count: usize = q4 as usize * 256 + q5 as usize;
    let ghost flagged = base.update(2, base[2] | 0x80u8).update(6, base[4]).update(7, base[5]);
    assert(buf@ =~= flagged);
    assert(qd_count == question_count(base));

    let reply_len = match (qd_count * DNS_ANSWER_LEN).checked_add(req_len) {
        Some(n) => n,
        None => { return None; }
    };
    if reply_len > max_len {
        return None;
    }

    assert(dns_reply(req@, req_len as int, max_len as int, ip_addr@) == match answer_questions(flagged, qd_count as nat, DNS_HEADER_LEN as int, req_len as int, ip_addr@) {
        Some(b) => Some(b.subrange(0, reply_len as int)),
        None => None,
    });

    // Answer every question, each after the one before.
    let mut ans: usize = req_len;
    let mut q: usize = DNS_HEADER_LEN;
    let mut k: usize = 0;
    while k < qd_count
        invariant
            buf@.len() == max_len,
            k <= qd_count,
            reply_len == qd_count * DNS_ANSWER_LEN + req_len,
            reply_len <= max_len,
            req_len <= ans <= req_len + k * DNS_ANSWER_LEN,
            q <= max_len,
            answer_questions(flagged, qd_count as nat, DNS_HEADER_LEN as int, req_len as int, ip_addr@)
                == answer_questions(buf@, (qd_count - k) as nat, q as int, ans as int, ip_addr@),
            dns_reply(req@, req_len as int, max_len as int, ip_addr@) == match answer_questions(flagged, qd_count as nat, DNS_HEADER_LEN as int, req_len as int, ip_addr@) {
                Some(b) => Some(b.subrange(0, reply_len as int)),
                None => None,
            },
            max_len == dns_reply_max_len,
        decreases qd_count - k,
    {
        let name = parse_dns_name(buf.as_slice(), q, DNS_NAME_MAX_LEN);
        match name {
            None => {
                proof {
                    assert(answer_questions(buf@, (qd_count - k) as nat, q as int, ans as int, ip_addr@) is None);
                }
                return None;
            }
            Some((e, _parsed)) => {
                proof {
                    lemma_name_walk_bounds(buf@, q as int, 0, DNS_NAME_MAX_LEN as int);
                }
                if e > buf.len() - 4 {
                    proof {
                        assert(answer_questions(buf@, (qd_count - k) as nat, q as int, ans as int, ip_addr@) is None);
                    }
                    return None;
                }
                if buf[e] == 0 && buf[e + 1] == 1 {
                    proof {
                        assert(ans + DNS_ANSWER_LEN <= req_len + (k + 1) * DNS_ANSWER_LEN) by (nonlinear_arith)
                            requires ans <= req_len + k * DNS_ANSWER_LEN;
                        assert(req_len + (k + 1) * DNS_ANSWER_LEN <= reply_len) by (nonlinear_arith)
                            requires k + 1 <= qd_count, reply_len == qd_count * DNS_ANSWER_LEN + req_len;
                    }
                    write_answer(&mut buf, ans, q, e, &ip_addr);
                    ans = ans + DNS_ANSWER_LEN;
                } else {
                    assert(req_len + k * DNS_ANSWER_LEN <= req_len + (k + 1) * DNS_ANSWER_LEN);
                }
                q = e + 4;
            }
        }
        k = k + 1;
    }

    let mut reply: Vec<u8> = Vec::new();
    let mut j: usize = 0;
    while j < reply_len
        invariant
            reply_len <= buf@.len(),
            j <= reply_len,
            reply@ =~= buf@.subrange(0, j as int),
        decreases reply_len - j,
    {
        reply.push(buf[j]);
        j = j + 1;
    }
    Some(reply)
}

/// One turn of the server loop: the datagram `rx_buffer[..len]` is
/// zero-terminated in place and answered with the address `ip_addr` in a
/// reply buffer of `DNS_MAX_LEN` bytes.
pub fn dns_server_reply(rx_buffer: &mut [u8], len: usize, ip_addr: [u8; 4]) -> (r: Option<Vec<u8>>)
    requires
        len < old(rx_buffer)@.len(),
        DNS_HEADER_LEN <= len,
    ensures
        final(rx_buffer)@ == old(rx_buffer)@.update(len as int, 0u8),
        match r {
            Some(v) => dns_reply(final(rx_buffer)@, len as int, DNS_MAX_LEN as int, ip_addr@) == Some(v@),
            None => dns_reply(final(rx_buffer)@, len as int, DNS_MAX_LEN as int, ip_addr@) is None,
        },
{
    rx_buffer[len] = 0u8;
    parse_dns_request(rx_buffer, len, DNS_MAX_LEN, ip_addr)
}

// ---------------------------------------------------------------------------
// The server's life cycle
// ---------------------------------------------------------------------------

/// Why the DNS server could not be started or stopped.
#[derive(Debug, Clone, Copy, PartialEq, Eq)]
pub enum DnsServerError {
    /// `start` while the server task is running.
    AlreadyRunning,
    /// `stop` while no server task is running.
    NotRunning,
    /// The server task could not be spawned.
    Spawn(EspError),
}

/// The captive-portal DNS server: the handle of its task while it runs.
pub struct CaptivePortalDns {
    task_handle: Option<u32>,
}

impl CaptivePortalDns {
    /// The handle of the running server task, if any.
    pub closed spec fn running_task(self) -> Option<u32> {
        self.task_handle
    }

    /// A server that is not running.
    pub fn new() -> (s: Self)
        ensures
            s.running_task() is None,
    {
        CaptivePortalDns { task_handle: None }
    }

    /// Whether the server task is running.
    pub fn is_running(&self) -> (b: bool)
        ensures
            b == self.running_task() is Some,
    {
        self.task_handle.is_some()
    }

    /// Starts the server: refused while it runs; otherwise `spawn` creates
    /// the server task and its handle is kept. `spawn` is not called when the
    /// server already runs.
    pub fn start<F: FnOnce() -> Result<u32, EspError>>(&mut self, spawn: F) -> (r: Result<(), DnsServerError>)
        requires
            call_requires(spawn, ()),
        ensures
            old(self).running_task() is Some ==> r == Err::<(), DnsServerError>(DnsServerError::AlreadyRunning)
                && final(self).running_task() == old(self).running_task(),
            old(self).running_task() is None ==> exists|res: Result<u32, EspError>| #[trigger] call_ensures(spawn, (), res) && match res {
                Ok(h) => r is Ok && final(self).running_task() == Some(h),
                Err(e) => r == Err::<(), DnsServerError>(DnsServerError::Spawn(e)) && final(self).running_task() is None,
            },
    {
        if self.task_handle.is_some() {
            return Err(DnsServerError::AlreadyRunning);
        }
        let res = spawn();
        match res {
            Ok(h) => {
                self.task_handle = Some(h);
                Ok(())
            }
            Err(e) => Err(DnsServerError::Spawn(e)),
        }
    }

    /// Stops the server: hands back the handle of the task to stop, or
    /// refuses when no task runs. Afterwards no task is running.
    pub fn stop(&mut self) -> (r: Result<u32, DnsServerError>)
        ensures
            match old(self).running_task() {
                Some(h) => r == Ok::<u32, DnsServerError>(h),
                None => r == Err::<u32, DnsServerError>(DnsServerError::NotRunning),
            },
            final(self).running_task() is None,
    {
        match self.task_handle.take() {
            Some(h) => Ok(h),
            None => Err(DnsServerError::NotRunning),
        }
    }
}

} // verus!
