//! The Bluedroid GATT server's attribute database and its event routing: which
//! attribute a read or write event is for, which callbacks run, what response
//! is sent, and whom a value change is notified or indicated to.
//!
//! The user's callbacks stay with the embedding application; the database
//! here records, for each attribute, its handle and which callbacks it has,
//! and the routing functions name the attributes whose callbacks are to run.

use vstd::prelude::*;

verus! {

/// The UUID of an attribute or service, in the form it was given: two
/// UUIDs of different forms are different.
#[derive(Debug, Clone, Copy, PartialEq, Eq, Structural)]
pub enum AttrUuid {
    Uuid16(u16),
    Uuid32(u32),
    Uuid128(u128),
}

/// An attribute (characteristic value or descriptor) as the router sees it.
#[derive(Debug, Clone, Copy)]
pub struct AttrEntry {
    /// The UUID of the attribute.
    pub uuid: AttrUuid,
    /// The handle the stack assigned, once registered.
    pub handle: Option<u16>,
    /// Whether a write callback is installed.
    pub has_write_callback: bool,
    /// Whether reads are answered by the application (a read callback is
    /// installed) rather than automatically by the stack.
    pub response_by_app: bool,
}

/// A characteristic: its value attribute and its descriptors.
#[derive(Debug)]
pub struct CharacteristicEntry {
    pub attr: AttrEntry,
    pub notify: bool,
    pub indicate: bool,
    pub descriptors: Vec<AttrEntry>,
}

/// A service: its UUID, its handle and characteristics.
#[derive(Debug)]
pub struct ServiceEntry {
    pub uuid: AttrUuid,
    pub handle: Option<u16>,
    pub characteristics: Vec<CharacteristicEntry>,
}

/// A profile: the application identifier it registers with, the interface
/// the stack assigned it and its services.
#[derive(Debug)]
pub struct ProfileEntry {
    pub identifier: u16,
    pub interface: Option<u8>,
    pub services: Vec<ServiceEntry>,
}

/// Where an attribute sits in a profile: service, characteristic, and the
/// descriptor when the attribute is one.
#[derive(Debug, Clone, Copy, PartialEq, Eq, Structural)]
pub struct AttrRef {
    pub service: usize,
    pub characteristic: usize,
    pub descriptor: Option<usize>,
}

/// The kind of access an event asks for.
#[derive(Debug, Clone, Copy, PartialEq, Eq, Structural)]
pub enum Access {
    /// A read.
    Read,
    /// A write, and whether the client waits for a response.
    Write { need_rsp: bool },
}

/// One callback run that an access event causes.
///
/// For a read, the attribute's read callback runs and its value is sent as
/// the response. For a write, the attribute's write callback runs with the
/// written value; when `respond` is set, the read callback then runs as if
/// for a read and its value is sent as the response.
#[derive(Debug, Clone, Copy, PartialEq, Eq, Structural)]
pub struct Dispatch {
    pub target: AttrRef,
    pub respond: bool,
}

/// What an access does at one attribute: nothing, or one dispatch.
pub open spec fn attr_dispatch(a: AttrEntry, target: AttrRef, access: Access) -> Seq<Dispatch> {
    match access {
        Access::Read => if a.response_by_app {
            seq![Dispatch { target, respond: true }]
        } else {
            Seq::empty()
        },
        Access::Write { need_rsp } => if a.has_write_callback {
            seq![Dispatch { target, respond: need_rsp && a.response_by_app }]
        } else {
            Seq::empty()
        },
    }
}

/// The dispatches at the first `n` descriptors of characteristic `j` of
/// service `i` whose handle is `h`.
pub open spec fn descs_dispatch(ds: Seq<AttrEntry>, n: nat, i: usize, j: usize, h: u16, access: Access) -> Seq<Dispatch>
    decreases n,
{
    if n == 0 {
        Seq::empty()
    } else {
        let k = (n - 1) as nat;
        descs_dispatch(ds, k, i, j, h, access) + if ds[k as int].handle == Some(h) {
            attr_dispatch(ds[k as int], AttrRef { service: i, characteristic: j, descriptor: Some(k as usize) }, access)
        } else {
            Seq::empty()
        }
    }
}

/// The dispatches at characteristic `j` of service `i`: at its value when
/// its handle is `h`, else at its descriptors whose handle is `h`.
pub open spec fn char_dispatch(c: CharacteristicEntry, i: usize, j: usize, h: u16, access: Access) -> Seq<Dispatch> {
    if c.attr.handle == Some(h) {
        attr_dispatch(c.attr, AttrRef { service: i, characteristic: j, descriptor: None }, access)
    } else {
        descs_dispatch(c.descriptors@, c.descriptors@.len(), i, j, h, access)
    }
}

/// The dispatches at the first `n` characteristics of service `i`.
pub open spec fn chars_dispatch(cs: Seq<CharacteristicEntry>, n: nat, i: usize, h: u16, access: Access) -> Seq<Dispatch>
    decreases n,
{
    if n == 0 {
        Seq::empty()
    } else {
        let j = (n - 1) as nat;
        chars_dispatch(cs, j, i, h, access) + char_dispatch(cs[j as int], i, j as usize, h, access)
    }
}

/// The dispatches at the first `n` services.
pub open spec fn services_dispatch(ss: Seq<ServiceEntry>, n: nat, h: u16, access: Access) -> Seq<Dispatch>
    decreases n,
{
    if n == 0 {
        Seq::empty()
    } else {
        let i = (n - 1) as nat;
        services_dispatch(ss, i, h, access) + chars_dispatch(ss[i as int].characteristics@, ss[i as int].characteristics@.len(), i as usize, h, access)
    }
}

/// The dispatches an access to handle `h` causes in a profile, in the order
/// services, characteristics and descriptors are declared.
pub open spec fn profile_dispatch(p: ProfileEntry, h: u16, access: Access) -> Seq<Dispatch> {
    services_dispatch(p.services@, p.services@.len(), h, access)
}

/// The number of the first `n` descriptors whose handle is `h`.
pub open spec fn descs_with_handle(ds: Seq<AttrEntry>, n: nat, h: u16) -> nat
    decreases n,
{
    if n == 0 {
        0
    } else {
        descs_with_handle(ds, (n - 1) as nat, h) + if ds[n - 1].handle == Some(h) { 1nat } else { 0nat }
    }
}

/// The number of attributes of a characteristic (its value and its
/// descriptors) whose handle is `h`.
pub open spec fn char_with_handle(c: CharacteristicEntry, h: u16) -> nat {
    (if c.attr.handle == Some(h) { 1nat } else { 0nat }) + descs_with_handle(c.descriptors@, c.descriptors@.len(), h)
}

/// The number of attributes of the first `n` characteristics whose handle
/// is `h`.
pub open spec fn chars_with_handle(cs: Seq<CharacteristicEntry>, n: nat, h: u16) -> nat
    decreases n,
{
    if n == 0 {
        0
    } else {
        chars_with_handle(cs, (n - 1) as nat, h) + char_with_handle(cs[n - 1], h)
    }
}

/// The number of attributes of the first `n` services whose handle is `h`.
pub open spec fn services_with_handle(ss: Seq<ServiceEntry>, n: nat, h: u16) -> nat
    decreases n,
{
    if n == 0 {
        0
    } else {
        services_with_handle(ss, (n - 1) as nat, h)
            + chars_with_handle(ss[n - 1].characteristics@, ss[n - 1].characteristics@.len(), h)
    }
}

/// The number of attributes of a profile whose handle is `h`.
pub open spec fn profile_with_handle(p: ProfileEntry, h: u16) -> nat {
    services_with_handle(p.services@, p.services@.len(), h)
}

proof fn lemma_descs_dispatch_len(ds: Seq<AttrEntry>, n: nat, i: usize, j: usize, h: u16, access: Access)
    ensures
        descs_dispatch(ds, n, i, j, h, access).len() <= descs_with_handle(ds, n, h),
    decreases n,
{
    if n > 0 {
        lemma_descs_dispatch_len(ds, (n - 1) as nat, i, j, h, access);
    }
}

proof fn lemma_chars_dispatch_len(cs: Seq<CharacteristicEntry>, n: nat, i: usize, h: u16, access: Access)
    ensures
        chars_dispatch(cs, n, i, h, access).len() <= chars_with_handle(cs, n, h),
    decreases n,
{
    if n > 0 {
        lemma_chars_dispatch_len(cs, (n - 1) as nat, i, h, access);
        let c = cs[n - 1];
        lemma_descs_dispatch_len(c.descriptors@, c.descriptors@.len(), i, (n - 1) as usize, h, access);
    }
}

proof fn lemma_services_dispatch_len(ss: Seq<ServiceEntry>, n: nat, h: u16, access: Access)
    ensures
        services_dispatch(ss, n, h, access).len() <= services_with_handle(ss, n, h),
    decreases n,
{
    if n > 0 {
        lemma_services_dispatch_len(ss, (n - 1) as nat, h, access);
        let cs = ss[n - 1].characteristics@;
        lemma_chars_dispatch_len(cs, cs.len(), (n - 1) as usize, h, access);
    }
}

/// An access runs callbacks at no more attributes than carry its handle;
/// where the handle is unique in the profile (the stack assigns distinct
/// handles), at most one attribute's callbacks run.
pub proof fn lemma_dispatch_at_most_handles(p: ProfileEntry, h: u16, access: Access)
    ensures
        profile_dispatch(p, h, access).len() <= profile_with_handle(p, h),
        profile_with_handle(p, h) <= 1 ==> profile_dispatch(p, h, access).len() <= 1,
{
    lemma_services_dispatch_len(p.services@, p.services@.len(), h, access);
}

/// Whether `r` names an attribute of `p`: an existing service and
/// characteristic, and an existing descriptor of it where one is named.
pub open spec fn ref_valid(p: ProfileEntry, r: AttrRef) -> bool {
    &&& r.service < p.services@.len()
    &&& r.characteristic < p.services@[r.service as int].characteristics@.len()
    &&& match r.descriptor {
        Some(x) => x < p.services@[r.service as int].characteristics@[r.characteristic as int].descriptors@.len(),
        None => true,
    }
}

/// The attribute of `p` that `r` names: a characteristic's value, or one of
/// its descriptors.
pub open spec fn attr_at(p: ProfileEntry, r: AttrRef) -> AttrEntry {
    let c = p.services@[r.service as int].characteristics@[r.characteristic as int];
    match r.descriptor {
        Some(x) => c.descriptors@[x as int],
        None => c.attr,
    }
}

/// Whether attribute `a` has the callback an access runs: a read callback
/// (reads answered by the application) for a read, a write callback for a
/// write.
pub open spec fn has_callback(a: AttrEntry, access: Access) -> bool {
    match access {
        Access::Read => a.response_by_app,
        Access::Write { .. } => a.has_write_callback,
    }
}

/// Whether a dispatch is right for an access to handle `h`: it names an
/// attribute of the profile with that handle and the callback the access
/// runs; a read always sends the read callback's value as the response, and
/// a write asks the application for a response exactly when the client
/// waits for one and the attribute's reads are answered by the application
/// (otherwise the stack answers).
pub open spec fn dispatch_ok(p: ProfileEntry, h: u16, access: Access, d: Dispatch) -> bool {
    &&& ref_valid(p, d.target)
    &&& attr_at(p, d.target).handle == Some(h)
    &&& has_callback(attr_at(p, d.target), access)
    &&& match access {
        Access::Read => d.respond,
        Access::Write { need_rsp } => d.respond == (need_rsp && attr_at(p, d.target).response_by_app),
    }
}

/// Whether every dispatch of `s` is right (see `dispatch_ok`).
pub open spec fn all_ok(p: ProfileEntry, h: u16, access: Access, s: Seq<Dispatch>) -> bool {
    forall|k: int| 0 <= k < s.len() ==> dispatch_ok(p, h, access, #[trigger] s[k])
}

/// Whether some dispatch of `s` names `r`.
pub open spec fn covers(s: Seq<Dispatch>, r: AttrRef) -> bool {
    exists|k: int| 0 <= k < s.len() && (#[trigger] s[k]).target == r
}

proof fn lemma_concat(p: ProfileEntry, h: u16, access: Access, a: Seq<Dispatch>, b: Seq<Dispatch>)
    ensures
        all_ok(p, h, access, a) && all_ok(p, h, access, b) ==> all_ok(p, h, access, a + b),
        forall|r: AttrRef| covers(a, r) || covers(b, r) ==> #[trigger] covers(a + b, r),
{
    if all_ok(p, h, access, a) && all_ok(p, h, access, b) {
        assert forall|k: int| 0 <= k < (a + b).len() implies dispatch_ok(p, h, access, #[trigger] (a + b)[k]) by {
            if k < a.len() {
                assert((a + b)[k] == a[k]);
            } else {
                assert((a + b)[k] == b[k - a.len()]);
            }
        }
    }
    assert forall|r: AttrRef| covers(a, r) || covers(b, r) implies #[trigger] covers(a + b, r) by {
        if covers(a, r) {
            let k = choose|k: int| 0 <= k < a.len() && (#[trigger] a[k]).target == r;
            assert((a + b)[k] == a[k]);
        } else {
            let k = choose|k: int| 0 <= k < b.len() && (#[trigger] b[k]).target == r;
            assert((a + b)[k + a.len()] == b[k]);
        }
    }
}

proof fn lemma_attr_dispatch(p: ProfileEntry, h: u16, access: Access, target: AttrRef)
    requires
        ref_valid(p, target),
        attr_at(p, target).handle == Some(h),
    ensures
        all_ok(p, h, access, attr_dispatch(attr_at(p, target), target, access)),
        has_callback(attr_at(p, target), access) ==> covers(attr_dispatch(attr_at(p, target), target, access), target),
{
    let s = attr_dispatch(attr_at(p, target), target, access);
    if s.len() > 0 {
        assert(s[0].target == target);
    }
}

proof fn lemma_descs_ok(p: ProfileEntry, i: usize, j: usize, n: nat, h: u16, access: Access)
    requires
        i < p.services@.len(),
        j < p.services@[i as int].characteristics@.len(),
        n <= p.services@[i as int].characteristics@[j as int].descriptors@.len(),
    ensures
        all_ok(p, h, access, descs_dispatch(p.services@[i as int].characteristics@[j as int].descriptors@, n, i, j, h, access)),
        forall|x: usize| x < n && (#[trigger] p.services@[i as int].characteristics@[j as int].descriptors@[x as int]).handle == Some(h)
            && has_callback(p.services@[i as int].characteristics@[j as int].descriptors@[x as int], access)
            ==> covers(
            descs_dispatch(p.services@[i as int].characteristics@[j as int].descriptors@, n, i, j, h, access),
            AttrRef { service: i, characteristic: j, descriptor: Some(x) },
        ),
    decreases n,
{
    let ds = p.services@[i as int].characteristics@[j as int].descriptors@;
    assert(p.services@[i as int].characteristics@[j as int].descriptors.len() == ds.len());
    if n > 0 {
        let k = (n - 1) as nat;
        lemma_descs_ok(p, i, j, k, h, access);
        let target = AttrRef { service: i, characteristic: j, descriptor: Some(k as usize) };
        let step = if ds[k as int].handle == Some(h) { attr_dispatch(ds[k as int], target, access) } else { Seq::empty() };
        assert(descs_dispatch(ds, n, i, j, h, access) == descs_dispatch(ds, k, i, j, h, access) + step);
        if ds[k as int].handle == Some(h) {
            assert(attr_at(p, target) == ds[k as int]);
            lemma_attr_dispatch(p, h, access, target);
        }
        lemma_concat(p, h, access, descs_dispatch(ds, k, i, j, h, access), step);
        assert forall|x: usize| x < n && (#[trigger] ds[x as int]).handle == Some(h) && has_callback(ds[x as int], access)
            implies covers(descs_dispatch(ds, n, i, j, h, access), AttrRef { service: i, characteristic: j, descriptor: Some(x) }) by {
            if x < k {
                assert(covers(descs_dispatch(ds, k, i, j, h, access), AttrRef { service: i, characteristic: j, descriptor: Some(x) }));
            } else {
                assert(x as nat == k);
                assert(covers(step, target));
            }
        }
    }
}

proof fn lemma_chars_ok(p: ProfileEntry, i: usize, n: nat, h: u16, access: Access)
    requires
        i < p.services@.len(),
        n <= p.services@[i as int].characteristics@.len(),
    ensures
        all_ok(p, h, access, chars_dispatch(p.services@[i as int].characteristics@, n, i, h, access)),
        forall|r: AttrRef| r.service == i && r.characteristic < n && ref_valid(p, r) && (#[trigger] attr_at(p, r)).handle == Some(h)
            && has_callback(attr_at(p, r), access)
            && (r.descriptor is Some ==> p.services@[i as int].characteristics@[r.characteristic as int].attr.handle != Some(h))
            ==> covers(chars_dispatch(p.services@[i as int].characteristics@, n, i, h, access), r),
    decreases n,
{
    let cs = p.services@[i as int].characteristics@;
    assert(p.services@[i as int].characteristics.len() == cs.len());
    if n > 0 {
        let j = (n - 1) as nat;
        lemma_chars_ok(p, i, j, h, access);
        let c = cs[j as int];
        assert(c.descriptors.len() == c.descriptors@.len());
        let step = char_dispatch(c, i, j as usize, h, access);
        assert(chars_dispatch(cs, n, i, h, access) == chars_dispatch(cs, j, i, h, access) + step);
        let vref = AttrRef { service: i, characteristic: j as usize, descriptor: None };
        if c.attr.handle == Some(h) {
            assert(attr_at(p, vref) == c.attr);
            lemma_attr_dispatch(p, h, access, vref);
        } else {
            lemma_descs_ok(p, i, j as usize, c.descriptors@.len(), h, access);
        }
        lemma_concat(p, h, access, chars_dispatch(cs, j, i, h, access), step);
        assert forall|r: AttrRef| r.service == i && r.characteristic < n && ref_valid(p, r) && (#[trigger] attr_at(p, r)).handle == Some(h)
            && has_callback(attr_at(p, r), access)
            && (r.descriptor is Some ==> cs[r.characteristic as int].attr.handle != Some(h))
            implies covers(chars_dispatch(cs, n, i, h, access), r) by {
            if r.characteristic < j {
                assert(covers(chars_dispatch(cs, j, i, h, access), r));
            } else {
                assert(r.characteristic as nat == j);
                match r.descriptor {
                    Some(x) => {
                        assert(attr_at(p, r) == c.descriptors@[x as int]);
                        assert(c.descriptors@[x as int].handle == Some(h));
                        assert(covers(step, r));
                    },
                    None => {
                        assert(r == vref);
                        assert(covers(step, r));
                    },
                }
            }
        }
    }
}

proof fn lemma_services_ok(p: ProfileEntry, n: nat, h: u16, access: Access)
    requires
        n <= p.services@.len(),
    ensures
        all_ok(p, h, access, services_dispatch(p.services@, n, h, access)),
        forall|r: AttrRef| r.service < n && ref_valid(p, r) && (#[trigger] attr_at(p, r)).handle == Some(h)
            && has_callback(attr_at(p, r), access)
            && (r.descriptor is Some ==> p.services@[r.service as int].characteristics@[r.characteristic as int].attr.handle != Some(h))
            ==> covers(services_dispatch(p.services@, n, h, access), r),
    decreases n,
{
    let ss = p.services@;
    assert(p.services.len() == ss.len());
    if n > 0 {
        let i = (n - 1) as nat;
        lemma_services_ok(p, i, h, access);
        let cs = ss[i as int].characteristics@;
        let step = chars_dispatch(cs, cs.len(), i as usize, h, access);
        assert(services_dispatch(ss, n, h, access) == services_dispatch(ss, i, h, access) + step);
        lemma_chars_ok(p, i as usize, cs.len(), h, access);
        lemma_concat(p, h, access, services_dispatch(ss, i, h, access), step);
        assert forall|r: AttrRef| r.service < n && ref_valid(p, r) && (#[trigger] attr_at(p, r)).handle == Some(h)
            && has_callback(attr_at(p, r), access)
            && (r.descriptor is Some ==> ss[r.service as int].characteristics@[r.characteristic as int].attr.handle != Some(h))
            implies covers(services_dispatch(ss, n, h, access), r) by {
            if r.service < i {
                assert(covers(services_dispatch(ss, i, h, access), r));
            } else {
                assert(r.service as nat == i);
                assert(covers(step, r));
            }
        }
    }
}

/// What an access to handle `h` does, for every profile: each dispatch
/// names an attribute of the profile that carries the handle and has the
/// callback the access runs (a read callback for a read, a write callback
/// for a write); a read's response is the read callback's value; a write
/// asks the application for a response exactly when the client waits for
/// one and the attribute's reads are answered by the application, and
/// otherwise leaves the response to the stack. Conversely every attribute
/// with the handle and that callback is dispatched to, a descriptor only
/// when its characteristic's value does not itself carry the handle.
pub proof fn lemma_dispatch_targets(p: ProfileEntry, h: u16, access: Access)
    ensures
        forall|k: int| 0 <= k < profile_dispatch(p, h, access).len() ==> {
            let d = #[trigger] profile_dispatch(p, h, access)[k];
            &&& ref_valid(p, d.target)
            &&& attr_at(p, d.target).handle == Some(h)
            &&& has_callback(attr_at(p, d.target), access)
            &&& match access {
                Access::Read => d.respond,
                Access::Write { need_rsp } => d.respond == (need_rsp && attr_at(p, d.target).response_by_app),
            }
        },
        forall|r: AttrRef| ref_valid(p, r) && (#[trigger] attr_at(p, r)).handle == Some(h) && has_callback(attr_at(p, r), access)
            && (r.descriptor is Some ==> p.services@[r.service as int].characteristics@[r.characteristic as int].attr.handle != Some(h))
            ==> exists|k: int| 0 <= k < profile_dispatch(p, h, access).len()
                && (#[trigger] profile_dispatch(p, h, access)[k]).target == r,
{
    lemma_services_ok(p, p.services@.len(), h, access);
    assert forall|k: int| 0 <= k < profile_dispatch(p, h, access).len() implies {
        let d = #[trigger] profile_dispatch(p, h, access)[k];
        &&& ref_valid(p, d.target)
        &&& attr_at(p, d.target).handle == Some(h)
        &&& has_callback(attr_at(p, d.target), access)
        &&& match access {
            Access::Read => d.respond,
            Access::Write { need_rsp } => d.respond == (need_rsp && attr_at(p, d.target).response_by_app),
        }
    } by {
        assert(dispatch_ok(p, h, access, profile_dispatch(p, h, access)[k]));
    }
    assert forall|r: AttrRef| ref_valid(p, r) && (#[trigger] attr_at(p, r)).handle == Some(h) && has_callback(attr_at(p, r), access)
        && (r.descriptor is Some ==> p.services@[r.service as int].characteristics@[r.characteristic as int].attr.handle != Some(h))
        implies exists|k: int| 0 <= k < profile_dispatch(p, h, access).len()
            && (#[trigger] profile_dispatch(p, h, access)[k]).target == r by {
        assert(covers(profile_dispatch(p, h, access), r));
    }
}

/// The dispatches for the descriptors of one characteristic.
fn dispatch_descriptors(ds: &Vec<AttrEntry>, i: usize, j: usize, h: u16, access: Access, out: &mut Vec<Dispatch>)
    ensures
        final(out)@ == old(out)@ + descs_dispatch(ds@, ds@.len(), i, j, h, access),
{
    let ghost start = out@;
    let mut k: usize = 0;
    assert(start + descs_dispatch(ds@, 0, i, j, h, access) =~= start);
    while k < ds.len()
        invariant
            k <= ds@.len(),
            out@ == start + descs_dispatch(ds@, k as nat, i, j, h, access),
        decreases ds.len() - k,
    {
        let d = ds[k];
        let target = AttrRef { service: i, characteristic: j, descriptor: Some(k) };
        let ghost before = out@;
        if d.handle == Some(h) {
            match access {
                Access::Read => {
                    if d.response_by_app {
                        out.push(Dispatch { target, respond: true });
                    }
                },
                Access::Write { need_rsp } => {
                    if d.has_write_callback {
                        out.push(Dispatch { target, respond: need_rsp && d.response_by_app });
                    }
                },
            }
        }
        proof {
            let step = if ds@[k as int].handle == Some(h) { attr_dispatch(ds@[k as int], target, access) } else { Seq::empty() };
            assert(descs_dispatch(ds@, (k + 1) as nat, i, j, h, access) == descs_dispatch(ds@, k as nat, i, j, h, access) + step);
            assert(out@ =~= before + step);
            assert(start + (descs_dispatch(ds@, k as nat, i, j, h, access) + step) =~= before + step);
        }
        k = k + 1;
    }
}

/// The dispatches an access to `handle` causes in `profile` (see
/// `profile_dispatch`).
pub fn dispatch(profile: &ProfileEntry, handle: u16, access: Access) -> (r: Vec<Dispatch>)
    ensures
        r@ == profile_dispatch(*profile, handle, access),
{
    let ss = &profile.services;
    let mut out: Vec<Dispatch> = Vec::new();
    let mut i: usize = 0;
    while i < ss.len()
        invariant
            i <= ss@.len(),
            *ss == profile.services,
            out@ == services_dispatch(ss@, i as nat, handle, access),
        decreases ss.len() - i,
    {
        let cs = &ss[i].characteristics;
        let ghost at_service = out@;
        let mut j: usize = 0;
        assert(at_service + chars_dispatch(cs@, 0, i, handle, access) =~= at_service);
        while j < cs.len()
            invariant
                i < ss@.len(),
                *cs == ss@[i as int].characteristics,
                j <= cs@.len(),
                out@ == at_service + chars_dispatch(cs@, j as nat, i, handle, access),
            decreases cs.len() - j,
        {
            let c = &cs[j];
            let ghost before = out@;
            if c.attr.handle == Some(handle) {
                let target = AttrRef { service: i, characteristic: j, descriptor: None };
                match access {
                    Access::Read => {
                        if c.attr.response_by_app {
                            out.push(Dispatch { target, respond: true });
                        }
                    },
                    Access::Write { need_rsp } => {
                        if c.attr.has_write_callback {
                            out.push(Dispatch { target, respond: need_rsp && c.attr.response_by_app });
                        }
                    },
                }
            } else {
                dispatch_descriptors(&c.descriptors, i, j, handle, access, &mut out);
            }
            proof {
                let step = char_dispatch(cs@[j as int], i, j, handle, access);
                assert(out@ =~= before + step);
                assert(chars_dispatch(cs@, (j + 1) as nat, i, handle, access) == chars_dispatch(cs@, j as nat, i, handle, access) + step);
                assert(at_service + (chars_dispatch(cs@, j as nat, i, handle, access) + step) =~= before + step);
            }
            j = j + 1;
        }
        proof {
            assert(services_dispatch(ss@, (i + 1) as nat, handle, access)
                == services_dispatch(ss@, i as nat, handle, access) + chars_dispatch(cs@, cs@.len(), i, handle, access));
        }
        i = i + 1;
    }
    out
}

/// The callbacks a read of `handle` runs in `profile`:
/// each read callback named runs and its value is sent as the response.
pub fn on_read(profile: &ProfileEntry, handle: u16) -> (r: Vec<Dispatch>)
    ensures
        r@ == profile_dispatch(*profile, handle, Access::Read),
{
    dispatch(profile, handle, Access::Read)
}

/// The callbacks a write to `handle` runs in `profile`.
pub fn on_write(profile: &ProfileEntry, handle: u16, need_rsp: bool) -> (r: Vec<Dispatch>)
    ensures
        r@ == profile_dispatch(*profile, handle, Access::Write { need_rsp }),
{
    dispatch(profile, handle, Access::Write { need_rsp })
}

/// A read event's parameters, as the read callbacks receive them.
#[derive(Debug, Clone, Copy)]
pub struct ReadEvent {
    pub conn_id: u16,
    pub trans_id: u32,
    pub bda: [u8; 6],
    pub handle: u16,
    pub offset: u16,
    pub is_long: bool,
    pub need_rsp: bool,
}

/// A write event's parameters (without the written bytes), as the write
/// callbacks receive them.
#[derive(Debug, Clone, Copy)]
pub struct WriteEvent {
    pub conn_id: u16,
    pub trans_id: u32,
    pub bda: [u8; 6],
    pub handle: u16,
    pub offset: u16,
    pub need_rsp: bool,
    pub is_prep: bool,
}

/// The read event the read callback receives when it answers a write that
/// asks for a response: the write's address, connection, handle, response
/// flag, offset and transaction, not a long read.
pub open spec fn read_event_of(w: WriteEvent) -> ReadEvent {
    ReadEvent {
        conn_id: w.conn_id,
        trans_id: w.trans_id,
        bda: w.bda,
        handle: w.handle,
        offset: w.offset,
        is_long: false,
        need_rsp: w.need_rsp,
    }
}

/// The read event for answering the write `w` (see `read_event_of`).
pub fn read_event_for_write(w: &WriteEvent) -> (r: ReadEvent)
    ensures
        r == read_event_of(*w),
{
    ReadEvent {
        conn_id: w.conn_id,
        trans_id: w.trans_id,
        bda: w.bda,
        handle: w.handle,
        offset: w.offset,
        is_long: false,
        need_rsp: w.need_rsp,
    }
}

} // verus!
