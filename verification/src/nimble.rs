//! The NimBLE GATT server: how an access to a characteristic reaches its
//! handler, the service table handed to the host, and the registration of
//! services during setup.

use vstd::prelude::*;

use crate::sequence::{ran_until_failure, run_result, run_steps};
use crate::error::EspError;

verus! {

/// A connection handle.
pub type ConnectionId = u16;

/// An attribute handle.
pub type Handle = u16;

/// Access operation: read a characteristic.
pub const BLE_GATT_ACCESS_OP_READ_CHR: u8 = 0;
/// Access operation: write a characteristic.
pub const BLE_GATT_ACCESS_OP_WRITE_CHR: u8 = 1;
/// Access operation: read a descriptor.
pub const BLE_GATT_ACCESS_OP_READ_DSC: u8 = 2;
/// Access operation: write a descriptor.
pub const BLE_GATT_ACCESS_OP_WRITE_DSC: u8 = 3;

/// ATT error: unlikely error, the answer to an access no handler takes.
pub const BLE_ATT_ERR_UNLIKELY: i32 = 0x0e;

/// Service type: primary.
pub const BLE_GATT_SVC_TYPE_PRIMARY: u8 = 1;
/// Service type: secondary.
pub const BLE_GATT_SVC_TYPE_SECONDARY: u8 = 2;
/// Service type of the entry that ends a service table.
pub const BLE_GATT_SVC_TYPE_END: u8 = 0;

/// An access to a characteristic, as its handler sees it.
#[derive(Debug)]
pub enum BleGattAccess {
    /// A client reads the characteristic; the handler supplies the value.
    Read { conn_handle: ConnectionId, attr_handle: Handle },
    /// A client writes `data` to the characteristic.
    Write { conn_handle: ConnectionId, attr_handle: Handle, data: Vec<u8> },
}

/// Hands an access of operation `op` to the characteristic's `handler` and
/// returns the handler's status; an operation that is neither a read nor a
/// write of a characteristic is answered with `BLE_ATT_ERR_UNLIKELY`
/// without calling the handler.
pub fn access<F: Fn(BleGattAccess) -> i32>(op: u8, conn_handle: u16, attr_handle: u16, data: Vec<u8>, handler: &F) -> (rc: i32)
    requires
        forall|a: BleGattAccess| call_requires(*handler, (a,)),
    ensures
        op == BLE_GATT_ACCESS_OP_READ_CHR ==> call_ensures(*handler, (BleGattAccess::Read { conn_handle, attr_handle },), rc),
        op == BLE_GATT_ACCESS_OP_WRITE_CHR ==> call_ensures(*handler, (BleGattAccess::Write { conn_handle, attr_handle, data },), rc),
        op != BLE_GATT_ACCESS_OP_READ_CHR && op != BLE_GATT_ACCESS_OP_WRITE_CHR ==> rc == BLE_ATT_ERR_UNLIKELY,
{
    if op == BLE_GATT_ACCESS_OP_READ_CHR {
        handler(BleGattAccess::Read { conn_handle, attr_handle })
    } else if op == BLE_GATT_ACCESS_OP_WRITE_CHR {
        handler(BleGattAccess::Write { conn_handle, attr_handle, data })
    } else {
        BLE_ATT_ERR_UNLIKELY
    }
}

/// The shape of a service handed to the host: whether it is primary and how
/// many characteristics it has.
#[derive(Debug, Clone, Copy, PartialEq, Eq, Structural)]
pub struct ServiceShape {
    pub primary: bool,
    pub characteristics: usize,
}

/// One entry of the service table: its type and the number of entries of
/// its characteristic table, whose last entry is the terminator.
#[derive(Debug, Clone, Copy, PartialEq, Eq, Structural)]
pub struct SvcDefEntry {
    pub svc_type: u8,
    pub chr_entries: usize,
}

/// The service table for `services`: one entry per service, primary or
/// secondary, with its characteristics plus a terminator, and a final
/// terminator entry.
pub open spec fn service_table(services: Seq<ServiceShape>) -> Seq<SvcDefEntry> {
    Seq::new(services.len(), |i: int| SvcDefEntry {
        svc_type: if services[i].primary { BLE_GATT_SVC_TYPE_PRIMARY } else { BLE_GATT_SVC_TYPE_SECONDARY },
        chr_entries: (services[i].characteristics + 1) as usize,
    }).push(SvcDefEntry { svc_type: BLE_GATT_SVC_TYPE_END, chr_entries: 0 })
}

/// The service table for `services` (see `service_table`).
pub fn build_service_table(services: &Vec<ServiceShape>) -> (t: Vec<SvcDefEntry>)
    requires
        forall|i: int| 0 <= i < services@.len() ==> #[trigger] services@[i].characteristics < usize::MAX,
    ensures
        t@ == service_table(services@),
{
    let mut t: Vec<SvcDefEntry> = Vec::new();
    let mut i: usize = 0;
    while i < services.len()
        invariant
            forall|i: int| 0 <= i < services@.len() ==> #[trigger] services@[i].characteristics < usize::MAX,
            i <= services@.len(),
            t@.len() == i,
            forall|k: int| 0 <= k < i ==> #[trigger] t@[k] == (SvcDefEntry {
                svc_type: if services@[k].primary { BLE_GATT_SVC_TYPE_PRIMARY } else { BLE_GATT_SVC_TYPE_SECONDARY },
                chr_entries: (services@[k].characteristics + 1) as usize,
            }),
        decreases services.len() - i,
    {
        let s = services[i];
        let svc_type = if s.primary { BLE_GATT_SVC_TYPE_PRIMARY } else { BLE_GATT_SVC_TYPE_SECONDARY };
        t.push(SvcDefEntry { svc_type, chr_entries: s.characteristics + 1 });
        i = i + 1;
    }
    t.push(SvcDefEntry { svc_type: BLE_GATT_SVC_TYPE_END, chr_entries: 0 });
    assert(t@ =~= service_table(services@));
    t
}

/// The layout of a service table: one entry more than there are services,
/// the last the terminator (type `BLE_GATT_SVC_TYPE_END`, no
/// characteristics); entry `i` is primary exactly when service `i` is, and
/// its characteristic table has one entry per characteristic plus its own
/// terminator.
pub proof fn lemma_service_table_layout(services: Seq<ServiceShape>)
    requires
        forall|i: int| 0 <= i < services.len() ==> #[trigger] services[i].characteristics < usize::MAX,
    ensures
        service_table(services).len() == services.len() + 1,
        service_table(services).last() == (SvcDefEntry { svc_type: BLE_GATT_SVC_TYPE_END, chr_entries: 0 }),
        forall|i: int| 0 <= i < services.len() ==> {
            &&& (#[trigger] service_table(services)[i]).svc_type == BLE_GATT_SVC_TYPE_PRIMARY <==> services[i].primary
            &&& service_table(services)[i].svc_type != BLE_GATT_SVC_TYPE_END
            &&& service_table(services)[i].chr_entries == services[i].characteristics + 1
        },
{
}

/// The host's state before it is started: the service tables queued for
/// registration.
pub struct BleSetup {
    pub registered_tables: usize,
}

/// One native call of a service registration.
#[derive(Debug, Clone, Copy, PartialEq, Eq, Structural)]
pub enum GattsStep {
    /// Count the table's attributes into the host configuration.
    CountCfg,
    /// Queue the table's services.
    AddSvcs,
}

/// A registration of services: counting, then queueing.
pub open spec fn add_services_steps() -> Seq<GattsStep> {
    seq![GattsStep::CountCfg, GattsStep::AddSvcs]
}

/// The GATT server setup routines, available while the host is being set up.
pub struct GattsSetup<'a> {
    setup: &'a mut BleSetup,
}

impl<'a> GattsSetup<'a> {
    /// The number of service tables queued in the setup.
    pub closed spec fn spec_queued(&self) -> usize {
        self.setup.registered_tables
    }

    /// The setup routines over `setup`.
    pub fn new(setup: &'a mut BleSetup) -> (s: Self)
        ensures
            s.spec_queued() == old(setup).registered_tables,
    {
        GattsSetup { setup }
    }

    /// Queues a service table for registration: counts its attributes, then
    /// adds its services, through `run`, stopping at the first failure.
    pub fn add_services<F: Fn(GattsStep) -> i32>(&mut self, run: &F) -> (r: Result<(), EspError>)
        requires
            forall|s: GattsStep| call_requires(*run, (s,)),
        ensures
            exists|codes: Seq<i32>| #[trigger] ran_until_failure(add_services_steps(), codes, *run)
                && match r {
                    Ok(()) => run_result(2, codes) == Ok::<(), i32>(()),
                    Err(e) => run_result(2, codes) == Err::<(), i32>(e.spec_code()),
                },
            final(self).spec_queued() == if r is Ok && old(self).spec_queued() < usize::MAX {
                (old(self).spec_queued() + 1) as usize
            } else {
                old(self).spec_queued()
            },
    {
        let steps: Vec<GattsStep> = vec![GattsStep::CountCfg, GattsStep::AddSvcs];
        assert(steps@ =~= add_services_steps());
        let r = run_steps(&steps, run);
        if r.is_ok() && self.setup.registered_tables < usize::MAX {
            self.setup.registered_tables = self.setup.registered_tables + 1;
        }
        r
    }
}

} // verus!
