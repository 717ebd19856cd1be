//! Registration of a profile's attribute database with the stack: as the
//! stack reports services, characteristics and descriptors created, the
//! handles it assigned are recorded in the database.

use vstd::prelude::*;

use crate::gatt::{AttrEntry, AttrUuid, CharacteristicEntry, ProfileEntry, ServiceEntry};
use crate::gatt_server::{first_match, find_service, service_at};

verus! {

/// Whether a service has the UUID `u`.
pub open spec fn service_with_uuid(u: AttrUuid) -> spec_fn(ServiceEntry) -> bool {
    |s: ServiceEntry| s.uuid == u
}

/// Whether a characteristic has the UUID `u`.
pub open spec fn characteristic_with_uuid(u: AttrUuid) -> spec_fn(CharacteristicEntry) -> bool {
    |c: CharacteristicEntry| c.attr.uuid == u
}

/// Whether descriptor `k` of characteristic `j` has the UUID `u` and no
/// handle yet.
pub open spec fn pending_descriptor(cs: Seq<CharacteristicEntry>, u: AttrUuid, j: int, k: int) -> bool {
    &&& 0 <= j < cs.len()
    &&& 0 <= k < cs[j].descriptors@.len()
    &&& cs[j].descriptors@[k].uuid == u
    &&& cs[j].descriptors@[k].handle is None
}

/// `(j, k)` is the first pending descriptor with UUID `u`, characteristics
/// in order and, within one, descriptors in order.
pub open spec fn is_first_pending(cs: Seq<CharacteristicEntry>, u: AttrUuid, j: int, k: int) -> bool {
    &&& pending_descriptor(cs, u, j, k)
    &&& forall|j2: int, k2: int| (j2 < j || (j2 == j && k2 < k)) ==> !#[trigger] pending_descriptor(cs, u, j2, k2)
}

/// A service with its handle set.
pub open spec fn with_service_handle(s: ServiceEntry, h: u16) -> ServiceEntry {
    ServiceEntry { uuid: s.uuid, handle: Some(h), characteristics: s.characteristics }
}

/// An attribute with its handle set.
pub open spec fn with_attr_handle(a: AttrEntry, h: u16) -> AttrEntry {
    AttrEntry { uuid: a.uuid, handle: Some(h), has_write_callback: a.has_write_callback, response_by_app: a.response_by_app }
}

/// The first service with UUID `u`.
fn find_service_by_uuid(services: &Vec<ServiceEntry>, u: AttrUuid) -> (r: Option<usize>)
    ensures
        match r {
            Some(i) => first_match(services@, service_with_uuid(u)) == Some(i as int),
            None => first_match(services@, service_with_uuid(u)) is None,
        },
{
    let mut i: usize = 0;
    while i < services.len()
        invariant
            i <= services@.len(),
            forall|j: int| 0 <= j < i ==> !service_with_uuid(u)(#[trigger] services@[j]),
        decreases services.len() - i,
    {
        if services[i].uuid == u {
            proof {
                crate::gatt_server::lemma_first_unique(services@, service_with_uuid(u), i as int);
            }
            return Some(i);
        }
        i = i + 1;
    }
    proof {
        crate::gatt_server::lemma_first_none(services@, service_with_uuid(u));
    }
    None
}

/// The first characteristic with UUID `u`.
fn find_characteristic_by_uuid(cs: &Vec<CharacteristicEntry>, u: AttrUuid) -> (r: Option<usize>)
    ensures
        match r {
            Some(i) => first_match(cs@, characteristic_with_uuid(u)) == Some(i as int),
            None => first_match(cs@, characteristic_with_uuid(u)) is None,
        },
{
    let mut i: usize = 0;
    while i < cs.len()
        invariant
            i <= cs@.len(),
            forall|j: int| 0 <= j < i ==> !characteristic_with_uuid(u)(#[trigger] cs@[j]),
        decreases cs.len() - i,
    {
        if cs[i].attr.uuid == u {
            proof {
                crate::gatt_server::lemma_first_unique(cs@, characteristic_with_uuid(u), i as int);
            }
            return Some(i);
        }
        i = i + 1;
    }
    proof {
        crate::gatt_server::lemma_first_none(cs@, characteristic_with_uuid(u));
    }
    None
}

/// The first pending descriptor with UUID `u` (see `is_first_pending`).
fn find_pending_descriptor(cs: &Vec<CharacteristicEntry>, u: AttrUuid) -> (r: Option<(usize, usize)>)
    ensures
        match r {
            Some((j, k)) => is_first_pending(cs@, u, j as int, k as int),
            None => forall|j: int, k: int| !#[trigger] pending_descriptor(cs@, u, j, k),
        },
{
    let mut j: usize = 0;
    while j < cs.len()
        invariant
            j <= cs@.len(),
            forall|j2: int, k2: int| j2 < j ==> !#[trigger] pending_descriptor(cs@, u, j2, k2),
        decreases cs.len() - j,
    {
        let ds = &cs[j].descriptors;
        let mut k: usize = 0;
        while k < ds.len()
            invariant
                j < cs@.len(),
                *ds == cs@[j as int].descriptors,
                k <= ds@.len(),
                forall|j2: int, k2: int| (j2 < j || (j2 == j && k2 < k)) ==> !#[trigger] pending_descriptor(cs@, u, j2, k2),
            decreases ds.len() - k,
        {
            if ds[k].uuid == u && ds[k].handle.is_none() {
                return Some((j, k));
            }
            k = k + 1;
        }
        proof {
            assert forall|j2: int, k2: int| j2 < j + 1 implies !#[trigger] pending_descriptor(cs@, u, j2, k2) by {
                if j2 == j && k2 >= ds@.len() {
                }
            }
        }
        j = j + 1;
    }
    None
}

/// Records the handle of a created service: the
/// first service with the UUID takes the handle, whatever the status.
/// Returns whether the service is to be started and its characteristics
/// registered: when it was found and its creation succeeded.
pub fn on_create(profile: &mut ProfileEntry, service_uuid: AttrUuid, service_handle: u16, ok: bool) -> (start: bool)
    ensures
        final(profile).interface == old(profile).interface,
        match first_match(old(profile).services@, service_with_uuid(service_uuid)) {
            Some(i) => final(profile).services@ == old(profile).services@.update(i,
                with_service_handle(old(profile).services@[i], service_handle)) && start == ok,
            None => final(profile).services@ == old(profile).services@ && !start,
        },
{
    match find_service_by_uuid(&profile.services, service_uuid) {
        None => false,
        Some(i) => {
            let ghost before = profile.services@;
            let mut svc = profile.services.remove(i);
            svc.handle = Some(service_handle);
            profile.services.insert(i, svc);
            assert(profile.services@ =~= before.update(i as int, with_service_handle(before[i as int], service_handle)));
            ok
        },
    }
}

/// Records the handle of a created characteristic:
/// in the service with the service handle, the first characteristic with
/// the UUID takes the handle when its creation succeeded. Returns where it
/// sits then, for its descriptors to be registered; `None` when nothing was
/// found or the creation failed.
pub fn on_char_add(profile: &mut ProfileEntry, service_handle: u16, char_uuid: AttrUuid, attr_handle: u16, ok: bool) -> (r: Option<(usize, usize)>)
    ensures
        final(profile).interface == old(profile).interface,
        final(profile).services@.len() == old(profile).services@.len(),
        match first_match(old(profile).services@, service_at(service_handle)) {
            None => final(profile).services@ == old(profile).services@ && r is None,
            Some(i) => match first_match(old(profile).services@[i].characteristics@, characteristic_with_uuid(char_uuid)) {
                None => final(profile).services@ == old(profile).services@ && r is None,
                Some(j) => if ok {
                    &&& r == Some((i as usize, j as usize))
                    &&& forall|k: int| 0 <= k < old(profile).services@.len() && k != i
                        ==> #[trigger] final(profile).services@[k] == old(profile).services@[k]
                    &&& final(profile).services@[i].uuid == old(profile).services@[i].uuid
                    &&& final(profile).services@[i].handle == old(profile).services@[i].handle
                    &&& final(profile).services@[i].characteristics@ == old(profile).services@[i].characteristics@.update(j,
                        CharacteristicEntry {
                            attr: with_attr_handle(old(profile).services@[i].characteristics@[j].attr, attr_handle),
                            notify: old(profile).services@[i].characteristics@[j].notify,
                            indicate: old(profile).services@[i].characteristics@[j].indicate,
                            descriptors: old(profile).services@[i].characteristics@[j].descriptors,
                        })
                } else {
                    final(profile).services@ == old(profile).services@ && r is None
                },
            },
        },
{
    let i = match find_service(&profile.services, service_handle) {
        Some(i) => i,
        None => { return None; },
    };
    let j = match find_characteristic_by_uuid(&profile.services[i].characteristics, char_uuid) {
        Some(j) => j,
        None => { return None; },
    };
    if !ok {
        return None;
    }
    let ghost before = profile.services@;
    let mut svc = profile.services.remove(i);
    let ghost chars_before = svc.characteristics@;
    let mut ch = svc.characteristics.remove(j);
    ch.attr.handle = Some(attr_handle);
    svc.characteristics.insert(j, ch);
    assert(svc.characteristics@ =~= chars_before.update(j as int, CharacteristicEntry {
        attr: with_attr_handle(chars_before[j as int].attr, attr_handle),
        notify: chars_before[j as int].notify,
        indicate: chars_before[j as int].indicate,
        descriptors: chars_before[j as int].descriptors,
    }));
    profile.services.insert(i, svc);
    proof {
        assert forall|k: int| 0 <= k < before.len() && k != i implies #[trigger] profile.services@[k] == before[k] by {
            if k < i {
                assert(profile.services@[k] == before.remove(i as int)[k]);
            } else {
                assert(profile.services@[k] == before.remove(i as int)[k - 1]);
            }
        }
    }
    Some((i, j))
}

/// Records the handle of a created descriptor:
/// in the service with the service handle, the first descriptor with the
/// UUID that has no handle yet takes the handle when its creation succeeded
/// (descriptors may share a UUID, so they take handles in the order they
/// were created). Returns whether a handle was recorded.
pub fn on_char_add_descr(profile: &mut ProfileEntry, service_handle: u16, descr_uuid: AttrUuid, attr_handle: u16, ok: bool) -> (recorded: bool)
    ensures
        final(profile).interface == old(profile).interface,
        final(profile).services@.len() == old(profile).services@.len(),
        !recorded ==> final(profile).services@ == old(profile).services@,
        recorded <==> ok && (first_match(old(profile).services@, service_at(service_handle)) matches Some(i)
            && exists|j: int, k: int| #[trigger] pending_descriptor(old(profile).services@[i].characteristics@, descr_uuid, j, k)),
        recorded ==> (first_match(old(profile).services@, service_at(service_handle)) matches Some(i)
            && exists|j: int, k: int| {
                &&& #[trigger] is_first_pending(old(profile).services@[i].characteristics@, descr_uuid, j, k)
                &&& forall|s: int| 0 <= s < old(profile).services@.len() && s != i
                    ==> #[trigger] final(profile).services@[s] == old(profile).services@[s]
                &&& final(profile).services@[i].uuid == old(profile).services@[i].uuid
                &&& final(profile).services@[i].handle == old(profile).services@[i].handle
                &&& final(profile).services@[i].characteristics@.len() == old(profile).services@[i].characteristics@.len()
                &&& forall|c: int| 0 <= c < old(profile).services@[i].characteristics@.len() && c != j
                    ==> #[trigger] final(profile).services@[i].characteristics@[c] == old(profile).services@[i].characteristics@[c]
                &&& final(profile).services@[i].characteristics@[j].attr == old(profile).services@[i].characteristics@[j].attr
                &&& final(profile).services@[i].characteristics@[j].descriptors@
                    == old(profile).services@[i].characteristics@[j].descriptors@.update(k,
                        with_attr_handle(old(profile).services@[i].characteristics@[j].descriptors@[k], attr_handle))
            }),
{
    let i = match find_service(&profile.services, service_handle) {
        Some(i) => i,
        None => { return false; },
    };
    let (j, k) = match find_pending_descriptor(&profile.services[i].characteristics, descr_uuid) {
        Some(p) => p,
        None => { return false; },
    };
    if !ok {
        return false;
    }
    let ghost before = profile.services@;
    let mut svc = profile.services.remove(i);
    let ghost chars_before = svc.characteristics@;
    let mut ch = svc.characteristics.remove(j);
    let ghost descs_before = ch.descriptors@;
    let mut d = ch.descriptors[k];
    d.handle = Some(attr_handle);
    ch.descriptors.set(k, d);
    assert(ch.descriptors@ =~= descs_before.update(k as int, with_attr_handle(descs_before[k as int], attr_handle)));
    svc.characteristics.insert(j, ch);
    profile.services.insert(i, svc);
    proof {
        assert forall|s: int| 0 <= s < before.len() && s != i implies #[trigger] profile.services@[s] == before[s] by {
            if s < i {
                assert(profile.services@[s] == before.remove(i as int)[s]);
            } else {
                assert(profile.services@[s] == before.remove(i as int)[s - 1]);
            }
        }
        let fc = profile.services@[i as int].characteristics@;
        assert forall|c: int| 0 <= c < chars_before.len() && c != j implies #[trigger] fc[c] == chars_before[c] by {
            if c < j {
                assert(fc[c] == chars_before.remove(j as int)[c]);
            } else {
                assert(fc[c] == chars_before.remove(j as int)[c - 1]);
            }
        }
        assert(is_first_pending(chars_before, descr_uuid, j as int, k as int));
        assert(pending_descriptor(chars_before, descr_uuid, j as int, k as int));
    }
    true
}

} // verus!
