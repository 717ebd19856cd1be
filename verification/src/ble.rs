//! BLE attribute utilities: characteristic properties and attribute
//! permissions with their native bit masks, the response control, the
//! response a read is answered with, connections, and the Client
//! Characteristic Configuration Descriptor (CCCD).

use vstd::prelude::*;

use crate::text::{hex_upper, push_char, push_hex_upper, decimal, push_decimal};

verus! {

// ---------------------------------------------------------------------------
// Characteristic properties
// ---------------------------------------------------------------------------

/// Property bit: broadcast.
pub const ESP_GATT_CHAR_PROP_BIT_BROADCAST: u8 = 0x01;
/// Property bit: read.
pub const ESP_GATT_CHAR_PROP_BIT_READ: u8 = 0x02;
/// Property bit: write without response.
pub const ESP_GATT_CHAR_PROP_BIT_WRITE_NR: u8 = 0x04;
/// Property bit: write.
pub const ESP_GATT_CHAR_PROP_BIT_WRITE: u8 = 0x08;
/// Property bit: notify.
pub const ESP_GATT_CHAR_PROP_BIT_NOTIFY: u8 = 0x10;
/// Property bit: indicate.
pub const ESP_GATT_CHAR_PROP_BIT_INDICATE: u8 = 0x20;
/// Property bit: authenticated signed writes.
pub const ESP_GATT_CHAR_PROP_BIT_AUTH: u8 = 0x40;
/// Property bit: extended properties.
pub const ESP_GATT_CHAR_PROP_BIT_EXT_PROP: u8 = 0x80;

/// The properties a characteristic announces. Notify and indicate are never
/// both set.
#[derive(Debug, Clone, Copy)]
pub struct CharacteristicProperties {
    broadcast: bool,
    read: bool,
    write_without_response: bool,
    write: bool,
    notify: bool,
    indicate: bool,
    authenticated_signed_writes: bool,
    extended_properties: bool,
}

/// The plain contents of a set of properties, in declaration order.
pub struct PropertyFlags {
    pub broadcast: bool,
    pub read: bool,
    pub write_without_response: bool,
    pub write: bool,
    pub notify: bool,
    pub indicate: bool,
    pub authenticated_signed_writes: bool,
    pub extended_properties: bool,
}

/// The native property mask of a set of flags.
pub open spec fn property_bits(f: PropertyFlags) -> u8 {
    (if f.broadcast { ESP_GATT_CHAR_PROP_BIT_BROADCAST } else { 0u8 })
        | (if f.read { ESP_GATT_CHAR_PROP_BIT_READ } else { 0u8 })
        | (if f.write_without_response { ESP_GATT_CHAR_PROP_BIT_WRITE_NR } else { 0u8 })
        | (if f.write { ESP_GATT_CHAR_PROP_BIT_WRITE } else { 0u8 })
        | (if f.notify { ESP_GATT_CHAR_PROP_BIT_NOTIFY } else { 0u8 })
        | (if f.indicate { ESP_GATT_CHAR_PROP_BIT_INDICATE } else { 0u8 })
        | (if f.authenticated_signed_writes { ESP_GATT_CHAR_PROP_BIT_AUTH } else { 0u8 })
        | (if f.extended_properties { ESP_GATT_CHAR_PROP_BIT_EXT_PROP } else { 0u8 })
}

impl CharacteristicProperties {
    #[verifier::type_invariant]
    spec fn inv(self) -> bool {
        !(self.notify && self.indicate)
    }

    /// The flags set.
    pub closed spec fn flags(self) -> PropertyFlags {
        PropertyFlags {
            broadcast: self.broadcast,
            read: self.read,
            write_without_response: self.write_without_response,
            write: self.write,
            notify: self.notify,
            indicate: self.indicate,
            authenticated_signed_writes: self.authenticated_signed_writes,
            extended_properties: self.extended_properties,
        }
    }

    /// No property set.
    pub fn new() -> (p: Self)
        ensures
            !(p.flags().notify && p.flags().indicate),
            p.flags() == (PropertyFlags {
                broadcast: false, read: false, write_without_response: false, write: false,
                notify: false, indicate: false, authenticated_signed_writes: false, extended_properties: false,
            }),
    {
        CharacteristicProperties {
            broadcast: false,
            read: false,
            write_without_response: false,
            write: false,
            notify: false,
            indicate: false,
            authenticated_signed_writes: false,
            extended_properties: false,
        }
    }

    /// With broadcast.
    pub fn broadcast(self) -> (p: Self)
        ensures
            !(p.flags().notify && p.flags().indicate),
            p.flags() == (PropertyFlags { broadcast: true, ..self.flags() }),
    {
        proof {
            use_type_invariant(&self);
        }
        CharacteristicProperties { broadcast: true, ..self }
    }

    /// With read.
    pub fn read(self) -> (p: Self)
        ensures
            !(p.flags().notify && p.flags().indicate),
            p.flags() == (PropertyFlags { read: true, ..self.flags() }),
    {
        proof {
            use_type_invariant(&self);
        }
        CharacteristicProperties { read: true, ..self }
    }

    /// With write without response.
    pub fn write_without_response(self) -> (p: Self)
        ensures
            !(p.flags().notify && p.flags().indicate),
            p.flags() == (PropertyFlags { write_without_response: true, ..self.flags() }),
    {
        proof {
            use_type_invariant(&self);
        }
        CharacteristicProperties { write_without_response: true, ..self }
    }

    /// With write.
    pub fn write(self) -> (p: Self)
        ensures
            !(p.flags().notify && p.flags().indicate),
            p.flags() == (PropertyFlags { write: true, ..self.flags() }),
    {
        proof {
            use_type_invariant(&self);
        }
        CharacteristicProperties { write: true, ..self }
    }

    /// With notify, unless indicate is set, in which case nothing changes.
    pub fn notify(self) -> (p: Self)
        ensures
            !(p.flags().notify && p.flags().indicate),
            self.flags().indicate ==> p.flags() == self.flags(),
            !self.flags().indicate ==> p.flags() == (PropertyFlags { notify: true, ..self.flags() }),
    {
        proof {
            use_type_invariant(&self);
        }
        if self.indicate {
            return self;
        }
        CharacteristicProperties { notify: true, ..self }
    }

    /// With indicate, unless notify is set, in which case nothing changes.
    pub fn indicate(self) -> (p: Self)
        ensures
            !(p.flags().notify && p.flags().indicate),
            self.flags().notify ==> p.flags() == self.flags(),
            !self.flags().notify ==> p.flags() == (PropertyFlags { indicate: true, ..self.flags() }),
    {
        proof {
            use_type_invariant(&self);
        }
        if self.notify {
            return self;
        }
        CharacteristicProperties { indicate: true, ..self }
    }

    /// With authenticated signed writes.
    pub fn authenticated_signed_writes(self) -> (p: Self)
        ensures
            !(p.flags().notify && p.flags().indicate),
            p.flags() == (PropertyFlags { authenticated_signed_writes: true, ..self.flags() }),
    {
        proof {
            use_type_invariant(&self);
        }
        CharacteristicProperties { authenticated_signed_writes: true, ..self }
    }

    /// With extended properties.
    pub fn extended_properties(self) -> (p: Self)
        ensures
            !(p.flags().notify && p.flags().indicate),
            p.flags() == (PropertyFlags { extended_properties: true, ..self.flags() }),
    {
        proof {
            use_type_invariant(&self);
        }
        CharacteristicProperties { extended_properties: true, ..self }
    }

    /// Whether notify is set.
    pub fn is_notify(&self) -> (b: bool)
        ensures
            b == self.flags().notify,
    {
        self.notify
    }

    /// Whether indicate is set.
    pub fn is_indicate(&self) -> (b: bool)
        ensures
            b == self.flags().indicate,
    {
        self.indicate
    }

    /// Whether read is set.
    pub fn is_read(&self) -> (b: bool)
        ensures
            b == self.flags().read,
    {
        self.read
    }

    /// Whether write or write without response is set.
    pub fn is_writable(&self) -> (b: bool)
        ensures
            b == (self.flags().write || self.flags().write_without_response),
    {
        self.write || self.write_without_response
    }

    /// The native property mask (`esp_gatt_char_prop_t`).
    pub fn to_bits(&self) -> (b: u8)
        ensures
            b == property_bits(self.flags()),
    {
        let r: u8 = (if self.broadcast { ESP_GATT_CHAR_PROP_BIT_BROADCAST } else { 0u8 })
            | (if self.read { ESP_GATT_CHAR_PROP_BIT_READ } else { 0u8 })
            | (if self.write_without_response { ESP_GATT_CHAR_PROP_BIT_WRITE_NR } else { 0u8 })
            | (if self.write { ESP_GATT_CHAR_PROP_BIT_WRITE } else { 0u8 })
            | (if self.notify { ESP_GATT_CHAR_PROP_BIT_NOTIFY } else { 0u8 })
            | (if self.indicate { ESP_GATT_CHAR_PROP_BIT_INDICATE } else { 0u8 })
            | (if self.authenticated_signed_writes { ESP_GATT_CHAR_PROP_BIT_AUTH } else { 0u8 })
            | (if self.extended_properties { ESP_GATT_CHAR_PROP_BIT_EXT_PROP } else { 0u8 });
        r
    }
}

/// Each flag owns one bit of the mask: the mask shows a flag exactly when it
/// is set.
pub proof fn lemma_property_bits_faithful(f: PropertyFlags)
    ensures
        (property_bits(f) & ESP_GATT_CHAR_PROP_BIT_NOTIFY != 0) == f.notify,
        (property_bits(f) & ESP_GATT_CHAR_PROP_BIT_INDICATE != 0) == f.indicate,
        (property_bits(f) & ESP_GATT_CHAR_PROP_BIT_READ != 0) == f.read,
        (property_bits(f) & ESP_GATT_CHAR_PROP_BIT_WRITE != 0) == f.write,
{
    let b0 = f.broadcast;
    let b1 = f.read;
    let b2 = f.write_without_response;
    let b3 = f.write;
    let b4 = f.notify;
    let b5 = f.indicate;
    let b6 = f.authenticated_signed_writes;
    let b7 = f.extended_properties;
    let m = property_bits(f);
    assert(
        (m & 16u8 != 0) == b4 && (m & 32u8 != 0) == b5 && (m & 2u8 != 0) == b1 && (m & 8u8 != 0) == b3
    ) by (bit_vector)
        requires
            m == (if b0 { 1u8 } else { 0u8 }) | (if b1 { 2u8 } else { 0u8 })
                | (if b2 { 4u8 } else { 0u8 }) | (if b3 { 8u8 } else { 0u8 })
                | (if b4 { 16u8 } else { 0u8 }) | (if b5 { 32u8 } else { 0u8 })
                | (if b6 { 64u8 } else { 0u8 }) | (if b7 { 128u8 } else { 0u8 });
}

// ---------------------------------------------------------------------------
// Attribute permissions
// ---------------------------------------------------------------------------

/// Permission bit: read.
pub const ESP_GATT_PERM_READ: u16 = 0x0001;
/// Permission bit: read over an encrypted link.
pub const ESP_GATT_PERM_READ_ENCRYPTED: u16 = 0x0002;
/// Permission bit: write.
pub const ESP_GATT_PERM_WRITE: u16 = 0x0010;
/// Permission bit: write over an encrypted link.
pub const ESP_GATT_PERM_WRITE_ENCRYPTED: u16 = 0x0020;

/// Who may read and write an attribute, and whether encryption is needed.
#[derive(Debug, Clone, Copy, PartialEq, Eq, Structural)]
pub struct AttributePermissions {
    pub read_access: bool,
    pub write_access: bool,
    pub encryption_required: bool,
}

/// The native permission mask (`esp_gatt_perm_t`): plain or encrypted read
/// and write bits for the accesses allowed.
pub open spec fn permission_bits(p: AttributePermissions) -> u16 {
    if p.encryption_required {
        (if p.read_access { ESP_GATT_PERM_READ_ENCRYPTED } else { 0u16 })
            | (if p.write_access { ESP_GATT_PERM_WRITE_ENCRYPTED } else { 0u16 })
    } else {
        (if p.read_access { ESP_GATT_PERM_READ } else { 0u16 })
            | (if p.write_access { ESP_GATT_PERM_WRITE } else { 0u16 })
    }
}

impl AttributePermissions {
    /// No access.
    pub fn new() -> (p: Self)
        ensures
            p == (AttributePermissions { read_access: false, write_access: false, encryption_required: false }),
    {
        AttributePermissions { read_access: false, write_access: false, encryption_required: false }
    }

    /// With read access.
    pub fn read(self) -> (p: Self)
        ensures
            p == (AttributePermissions { read_access: true, ..self }),
    {
        AttributePermissions { read_access: true, ..self }
    }

    /// With write access.
    pub fn write(self) -> (p: Self)
        ensures
            p == (AttributePermissions { write_access: true, ..self }),
    {
        AttributePermissions { write_access: true, ..self }
    }

    /// With encryption required.
    pub fn encrypted(self) -> (p: Self)
        ensures
            p == (AttributePermissions { encryption_required: true, ..self }),
    {
        AttributePermissions { encryption_required: true, ..self }
    }

    /// The native permission mask.
    pub fn to_bits(&self) -> (b: u16)
        ensures
            b == permission_bits(*self),
    {
        match (self.read_access, self.write_access, self.encryption_required) {
            (false, false, _) => {
                assert(0u16 | 0u16 == 0u16) by (bit_vector);
                0
            },
            (true, false, false) => {
                assert(1u16 | 0u16 == 1u16) by (bit_vector);
                ESP_GATT_PERM_READ
            },
            (false, true, false) => {
                assert(0u16 | 16u16 == 16u16) by (bit_vector);
                ESP_GATT_PERM_WRITE
            },
            (true, true, false) => ESP_GATT_PERM_READ | ESP_GATT_PERM_WRITE,
            (true, false, true) => {
                assert(2u16 | 0u16 == 2u16) by (bit_vector);
                ESP_GATT_PERM_READ_ENCRYPTED
            },
            (false, true, true) => {
                assert(0u16 | 32u16 == 32u16) by (bit_vector);
                ESP_GATT_PERM_WRITE_ENCRYPTED
            },
            (true, true, true) => ESP_GATT_PERM_READ_ENCRYPTED | ESP_GATT_PERM_WRITE_ENCRYPTED,
        }
    }
}

// ---------------------------------------------------------------------------
// Response control
// ---------------------------------------------------------------------------

/// Native control: the stack answers reads with the stored value.
pub const ESP_GATT_AUTO_RSP: u8 = 1;
/// Native control: the application answers reads.
pub const ESP_GATT_RSP_BY_APP: u8 = 0;

/// The native control byte (`esp_attr_control_t`) for an attribute whose
/// reads are, or are not, answered by the application.
pub fn control_code(response_by_app: bool) -> (c: u8)
    ensures
        c == if response_by_app { ESP_GATT_RSP_BY_APP } else { ESP_GATT_AUTO_RSP },
{
    if response_by_app { ESP_GATT_RSP_BY_APP } else { ESP_GATT_AUTO_RSP }
}

// ---------------------------------------------------------------------------
// Responses
// ---------------------------------------------------------------------------

/// Size of the value buffer of a native response (`ESP_GATT_MAX_ATTR_LEN`).
pub const GATT_RESPONSE_CAPACITY: usize = 600;

/// A response to a read (`esp_gatt_rsp_t`): the attribute's handle, the
/// value's length and the value zero-padded to the buffer's size.
pub struct GattResponse {
    pub handle: u16,
    pub len: u16,
    pub offset: u16,
    pub auth_req: u8,
    pub value: Vec<u8>,
}

/// The response that answers a read of `handle` with `value`.
pub fn gatt_response(handle: u16, value: &[u8]) -> (r: GattResponse)
    requires
        value@.len() <= GATT_RESPONSE_CAPACITY,
    ensures
        r.handle == handle,
        r.len == value@.len(),
        r.offset == 0,
        r.auth_req == 0,
        r.value@ == value@ + Seq::new((GATT_RESPONSE_CAPACITY - value@.len()) as nat, |i: int| 0u8),
{
    let mut buf: Vec<u8> = Vec::new();
    let mut i: usize = 0;
    while i < GATT_RESPONSE_CAPACITY
        invariant
            value@.len() <= GATT_RESPONSE_CAPACITY,
            i <= GATT_RESPONSE_CAPACITY,
            buf@.len() == i,
            forall|k: int| 0 <= k < i ==> #[trigger] buf@[k] == if k < value@.len() { value@[k] } else { 0u8 },
        decreases GATT_RESPONSE_CAPACITY - i,
    {
        if i < value.len() {
            buf.push(value[i]);
        } else {
            buf.push(0u8);
        }
        i = i + 1;
    }
    assert(buf@ =~= value@ + Seq::new((GATT_RESPONSE_CAPACITY - value@.len()) as nat, |i: int| 0u8));
    GattResponse { handle, len: value.len() as u16, offset: 0, auth_req: 0, value: buf }
}

// ---------------------------------------------------------------------------
// The CCCD
// ---------------------------------------------------------------------------

/// The 16-bit UUID of the Client Characteristic Configuration Descriptor.
pub const CCCD_UUID16: u16 = 0x2902;

/// The 16-bit UUID of the Characteristic User Description descriptor.
pub const USER_DESCRIPTION_UUID16: u16 = 0x2901;

/// What a CCCD value asks for: notifications (bit 0 of the first byte) and
/// indications (bit 1).
pub open spec fn cccd_flags(value: Seq<u8>) -> (bool, bool) {
    (value[0] & 1u8 == 1u8, value[0] & 2u8 == 2u8)
}

/// Whether a CCCD value asks for notifications and for indications.
pub fn cccd_status(value: &[u8]) -> (r: (bool, bool))
    requires
        value@.len() >= 1,
    ensures
        r == cccd_flags(value@),
{
    let b = value[0];
    (b & 1u8 == 1u8, b & 2u8 == 2u8)
}

/// The key a client's CCCD value is stored under: bytes 2 to 5 of the
/// client's address and the descriptor's handle, in upper-case hexadecimal,
/// as `"AABBCCDD-HHHH"`.
pub open spec fn cccd_key_text(bda: Seq<u8>, handle: u16) -> Seq<char> {
    hex_upper(bda[2] as nat, 2) + hex_upper(bda[3] as nat, 2) + hex_upper(bda[4] as nat, 2)
        + hex_upper(bda[5] as nat, 2) + seq!['-'] + hex_upper(handle as nat, 4)
}

/// The key a client's CCCD value is stored under (see `cccd_key_text`).
pub fn cccd_key(bda: &[u8; 6], handle: u16) -> (k: String)
    ensures
        k@ == cccd_key_text(bda@, handle),
{
    let mut k = String::new();
    push_hex_upper(&mut k, bda[2] as u64, 2);
    push_hex_upper(&mut k, bda[3] as u64, 2);
    push_hex_upper(&mut k, bda[4] as u64, 2);
    push_hex_upper(&mut k, bda[5] as u64, 2);
    push_char(&mut k, '-');
    push_hex_upper(&mut k, handle as u64, 4);
    assert(k@ =~= cccd_key_text(bda@, handle));
    k
}

/// The number a CCCD key stands for: the four address bytes and the handle,
/// read as one big-endian number. Two keys are equal exactly when their
/// numbers are.
pub open spec fn cccd_slot(bda: Seq<u8>, handle: u16) -> u64 {
    ((((bda[2] as int * 256 + bda[3] as int) * 256 + bda[4] as int) * 256 + bda[5] as int) * 65536 + handle as int) as u64
}

/// The number a CCCD key stands for (see `cccd_slot`).
pub fn cccd_slot_of(bda: &[u8; 6], handle: u16) -> (s: u64)
    ensures
        s == cccd_slot(bda@, handle),
{
    let a: u64 = bda[2] as u64;
    let b: u64 = bda[3] as u64;
    let c: u64 = bda[4] as u64;
    let d: u64 = bda[5] as u64;
    assert((((a * 256 + b) * 256 + c) * 256 + d) * 65536 + handle < 0x1_0000_0000_0000) by (nonlinear_arith)
        requires a < 256, b < 256, c < 256, d < 256, handle < 65536;
    (((a * 256 + b) * 256 + c) * 256 + d) * 65536 + handle as u64
}

/// One stored CCCD value.
pub struct CccdEntry {
    pub slot: u64,
    pub value: Vec<u8>,
}

/// The CCCD values a descriptor keeps in memory when no non-volatile storage
/// is configured, one per client and descriptor handle.
pub struct CccdStore {
    entries: Vec<CccdEntry>,
}

/// The value stored under `slot` in the first `n` entries: that of the first
/// entry with the slot.
pub open spec fn lookup_slot(entries: Seq<CccdEntry>, n: nat, slot: u64) -> Option<Seq<u8>>
    decreases n,
{
    if n == 0 {
        None
    } else if entries[(entries.len() - n) as int].slot == slot {
        Some(entries[(entries.len() - n) as int].value@)
    } else {
        lookup_slot(entries, (n - 1) as nat, slot)
    }
}

/// What a read of the CCCD answers: the stored value, or `[0, 0]` (nothing
/// subscribed) when none is stored.
pub open spec fn cccd_answer(stored: Option<Seq<u8>>) -> Seq<u8> {
    match stored {
        Some(v) => v,
        None => seq![0u8, 0u8],
    }
}

/// What a read of the CCCD answers from non-volatile storage, given what
/// the storage holds under the client's key (see `cccd_key`): the stored
/// value, or `[0, 0]` when nothing is stored.
pub fn cccd_stored_answer(stored: Option<&[u8]>) -> (r: Vec<u8>)
    ensures
        r@ == cccd_answer(match stored {
            Some(v) => Some(v@),
            None => None,
        }),
{
    match stored {
        Some(v) => vstd::slice::slice_to_vec(v),
        None => {
            let r = vec![0u8, 0u8];
            assert(r@ =~= seq![0u8, 0u8]);
            r
        },
    }
}

impl CccdStore {
    /// The value stored under each slot.
    pub closed spec fn stored(self, slot: u64) -> Option<Seq<u8>> {
        lookup_slot(self.entries@, self.entries@.len(), slot)
    }

    /// A store holding nothing.
    pub fn new() -> (s: Self)
        ensures
            forall|slot: u64| s.stored(slot) is None,
    {
        CccdStore { entries: Vec::new() }
    }

    /// The index of the first entry for `slot`, if any.
    fn find(&self, slot: u64) -> (r: Option<usize>)
        ensures
            match r {
                Some(i) => i < self.entries@.len() && self.entries@[i as int].slot == slot
                    && self.stored(slot) == Some(self.entries@[i as int].value@)
                    && forall|j: int| 0 <= j < i ==> self.entries@[j].slot != slot,
                None => self.stored(slot) is None && forall|j: int| 0 <= j < self.entries@.len() ==> self.entries@[j].slot != slot,
            },
    {
        let mut i: usize = 0;
        while i < self.entries.len()
            invariant
                i <= self.entries@.len(),
                forall|j: int| 0 <= j < i ==> self.entries@[j].slot != slot,
                lookup_slot(self.entries@, self.entries@.len(), slot) == lookup_slot(self.entries@, (self.entries@.len() - i) as nat, slot),
            decreases self.entries.len() - i,
        {
            if self.entries[i].slot == slot {
                return Some(i);
            }
            i = i + 1;
        }
        None
    }

    /// What a read of the CCCD of `handle` by the client `bda` answers.
    pub fn get(&self, bda: &[u8; 6], handle: u16) -> (v: Vec<u8>)
        ensures
            v@ == cccd_answer(self.stored(cccd_slot(bda@, handle))),
    {
        let slot = cccd_slot_of(bda, handle);
        match self.find(slot) {
            Some(i) => {
                let src = &self.entries[i].value;
                let mut v: Vec<u8> = Vec::new();
                let mut k: usize = 0;
                while k < src.len()
                    invariant
                        k <= src@.len(),
                        v@ =~= src@.subrange(0, k as int),
                    decreases src.len() - k,
                {
                    v.push(src[k]);
                    k = k + 1;
                }
                v
            },
            None => {
                let v = vec![0u8, 0u8];
                assert(v@ =~= seq![0u8, 0u8]);
                v
            },
        }
    }

    /// Stores `value` as the CCCD value of `handle` for the client `bda`,
    /// replacing what was stored there; other values are kept.
    pub fn set(&mut self, bda: &[u8; 6], handle: u16, value: Vec<u8>)
        ensures
            final(self).stored(cccd_slot(bda@, handle)) == Some(value@),
            forall|other: u64| other != cccd_slot(bda@, handle) ==> #[trigger] final(self).stored(other) == old(self).stored(other),
    {
        let slot = cccd_slot_of(bda, handle);
        let ghost value_view = value@;
        match self.find(slot) {
            Some(i) => {
                let ghost before = self.entries@;
                self.entries.set(i, CccdEntry { slot, value });
                proof {
                    let after = self.entries@;
                    assert forall|other: u64| #[trigger] lookup_slot(after, after.len(), other) == if other == slot {
                        Some(value_view)
                    } else {
                        lookup_slot(before, before.len(), other)
                    } by {
                        self.lemma_lookup_after_set(before, after, i as int, slot, other, value_view, after.len());
                    }
                }
            },
            None => {
                let ghost before = self.entries@;
                self.entries.push(CccdEntry { slot, value });
                proof {
                    let after = self.entries@;
                    assert forall|other: u64| #[trigger] lookup_slot(after, after.len(), other) == if other == slot {
                        Some(value_view)
                    } else {
                        lookup_slot(before, before.len(), other)
                    } by {
                        self.lemma_lookup_after_push(before, after, slot, other, value_view, before.len());
                    }
                }
            },
        }
    }

    proof fn lemma_lookup_same_suffix(&self, a: Seq<CccdEntry>, b: Seq<CccdEntry>, other: u64, n: nat)
        requires
            a.len() == b.len(),
            n <= a.len(),
            forall|j: int| a.len() - n <= j < a.len() ==> a[j] == b[j],
        ensures
            lookup_slot(a, n, other) == lookup_slot(b, n, other),
        decreases n,
    {
        if n > 0 {
            let idx = a.len() - n;
            assert(a[idx] == b[idx]);
            self.lemma_lookup_same_suffix(a, b, other, (n - 1) as nat);
        }
    }

    proof fn lemma_lookup_after_set(&self, before: Seq<CccdEntry>, after: Seq<CccdEntry>, i: int, slot: u64, other: u64, v: Seq<u8>, n: nat)
        requires
            0 <= i < before.len(),
            after.len() == before.len(),
            before[i].slot == slot,
            forall|j: int| 0 <= j < i ==> before[j].slot != slot,
            after[i].slot == slot,
            after[i].value@ == v,
            forall|j: int| 0 <= j < before.len() && j != i ==> after[j] == before[j],
            n <= after.len(),
            n >= after.len() - i,
        ensures
            lookup_slot(after, n, other) == if other == slot {
                Some(v)
            } else {
                lookup_slot(before, n, other)
            },
        decreases n,
    {
        let idx = after.len() - n;
        if idx == i {
            if other != slot {
                self.lemma_lookup_same_suffix(after, before, other, (n - 1) as nat);
            }
        } else {
            assert(after[idx] == before[idx]);
            self.lemma_lookup_after_set(before, after, i, slot, other, v, (n - 1) as nat);
        }
    }

    proof fn lemma_lookup_after_push(&self, before: Seq<CccdEntry>, after: Seq<CccdEntry>, slot: u64, other: u64, v: Seq<u8>, n: nat)
        requires
            after.len() == before.len() + 1,
            forall|j: int| 0 <= j < before.len() ==> after[j] == before[j],
            forall|j: int| 0 <= j < before.len() ==> before[j].slot != slot,
            after[before.len() as int].slot == slot,
            after[before.len() as int].value@ == v,
            n <= before.len(),
        ensures
            lookup_slot(after, n + 1, other) == if other == slot {
                Some(v)
            } else {
                lookup_slot(before, n, other)
            },
        decreases n,
    {
        let idx = after.len() - (n + 1);
        assert(idx == before.len() - n);
        if n == 0 {
            assert(lookup_slot(after, 1, other) == if after[idx].slot == other {
                Some(after[idx].value@)
            } else {
                lookup_slot(after, 0, other)
            });
        } else {
            assert(after[idx] == before[idx]);
            assert(lookup_slot(before, n, other) == if before[idx].slot == other {
                Some(before[idx].value@)
            } else {
                lookup_slot(before, (n - 1) as nat, other)
            });
            assert(lookup_slot(after, n + 1, other) == if after[idx].slot == other {
                Some(after[idx].value@)
            } else {
                lookup_slot(after, n, other)
            });
            self.lemma_lookup_after_push(before, after, slot, other, v, (n - 1) as nat);
        }
    }
}

/// A CCCD read gives back what the last write for the same client and
/// descriptor stored; a write for another client or descriptor does not
/// change it.
pub proof fn lemma_cccd_read_after_write(s0: CccdStore, s1: CccdStore, bda: Seq<u8>, handle: u16, value: Seq<u8>, bda2: Seq<u8>, handle2: u16)
    requires
        s1.stored(cccd_slot(bda, handle)) == Some(value),
        forall|other: u64| other != cccd_slot(bda, handle) ==> #[trigger] s1.stored(other) == s0.stored(other),
        bda.len() == 6,
        bda2.len() == 6,
    ensures
        cccd_answer(s1.stored(cccd_slot(bda, handle))) == value,
        (bda2[2] != bda[2] || bda2[3] != bda[3] || bda2[4] != bda[4] || bda2[5] != bda[5] || handle2 != handle)
            ==> cccd_answer(s1.stored(cccd_slot(bda2, handle2))) == cccd_answer(s0.stored(cccd_slot(bda2, handle2))),
{
    let x = cccd_slot(bda, handle);
    let y = cccd_slot(bda2, handle2);
    if bda2[2] != bda[2] || bda2[3] != bda[3] || bda2[4] != bda[4] || bda2[5] != bda[5] || handle2 != handle {
        let a1 = bda[2] as int; let b1 = bda[3] as int; let c1 = bda[4] as int; let d1 = bda[5] as int;
        let a2 = bda2[2] as int; let b2 = bda2[3] as int; let c2 = bda2[4] as int; let d2 = bda2[5] as int;
        let h1 = handle as int; let h2 = handle2 as int;
        assert(((((a1 * 256 + b1) * 256 + c1) * 256 + d1) * 65536 + h1) != ((((a2 * 256 + b2) * 256 + c2) * 256 + d2) * 65536 + h2))
            by (nonlinear_arith)
            requires
                0 <= a1 < 256, 0 <= b1 < 256, 0 <= c1 < 256, 0 <= d1 < 256, 0 <= h1 < 65536,
                0 <= a2 < 256, 0 <= b2 < 256, 0 <= c2 < 256, 0 <= d2 < 256, 0 <= h2 < 65536,
                a1 != a2 || b1 != b2 || c1 != c2 || d1 != d2 || h1 != h2;
        assert(((((a1 * 256 + b1) * 256 + c1) * 256 + d1) * 65536 + h1) < 0x1_0000_0000_0000) by (nonlinear_arith)
            requires 0 <= a1 < 256, 0 <= b1 < 256, 0 <= c1 < 256, 0 <= d1 < 256, 0 <= h1 < 65536;
        assert(((((a2 * 256 + b2) * 256 + c2) * 256 + d2) * 65536 + h2) < 0x1_0000_0000_0000) by (nonlinear_arith)
            requires 0 <= a2 < 256, 0 <= b2 < 256, 0 <= c2 < 256, 0 <= d2 < 256, 0 <= h2 < 65536;
        assert(((((a1 * 256 + b1) * 256 + c1) * 256 + d1) * 65536 + h1) >= 0) by (nonlinear_arith)
            requires 0 <= a1 < 256, 0 <= b1 < 256, 0 <= c1 < 256, 0 <= d1 < 256, 0 <= h1 < 65536;
        assert(((((a2 * 256 + b2) * 256 + c2) * 256 + d2) * 65536 + h2) >= 0) by (nonlinear_arith)
            requires 0 <= a2 < 256, 0 <= b2 < 256, 0 <= c2 < 256, 0 <= d2 < 256, 0 <= h2 < 65536;
        assert(x != y);
    }
}

// ---------------------------------------------------------------------------
// Connections
// ---------------------------------------------------------------------------

/// A client connected to the GATT server. Two connections are the same
/// client when their remote addresses are equal.
#[derive(Debug, Clone, Copy)]
pub struct Connection {
    pub id: u16,
    pub is_slave: bool,
    pub remote_bda: [u8; 6],
}

impl Connection {
    /// The connection a connect or disconnect event describes: the local
    /// device is the slave when the link role is 1.
    pub fn from_event(conn_id: u16, link_role: u8, remote_bda: [u8; 6]) -> (c: Connection)
        ensures
            c.id == conn_id,
            c.is_slave == (link_role == 1),
            c.remote_bda == remote_bda,
    {
        Connection { id: conn_id, is_slave: link_role == 1, remote_bda }
    }

    /// Whether two connections are the same client.
    pub fn same_client(&self, other: &Connection) -> (b: bool)
        ensures
            b == (self.remote_bda@ == other.remote_bda@),
    {
        let mut i: usize = 0;
        while i < 6
            invariant
                i <= 6,
                forall|j: int| 0 <= j < i ==> self.remote_bda@[j] == other.remote_bda@[j],
            decreases 6 - i,
        {
            if self.remote_bda[i] != other.remote_bda[i] {
                return false;
            }
            i = i + 1;
        }
        assert(self.remote_bda@ =~= other.remote_bda@);
        true
    }

    /// The text of a connection: the address as six colon-separated
    /// upper-case hexadecimal bytes, then the id and the role,
    /// `"AA:BB:CC:DD:EE:FF (id, slave: true)"`.
    pub fn to_string(&self) -> (s: String)
        ensures
            s@ == connection_text(self.remote_bda@, self.id, self.is_slave),
    {
        let mut s = String::new();
        let mut i: usize = 0;
        while i < 6
            invariant
                i <= 6,
                s@ == address_text(self.remote_bda@, i as nat),
            decreases 6 - i,
        {
            if i > 0 {
                push_char(&mut s, ':');
            }
            push_hex_upper(&mut s, self.remote_bda[i] as u64, 2);
            i = i + 1;
        }
        push_char(&mut s, ' ');
        push_char(&mut s, '(');
        push_decimal(&mut s, self.id as u64);
        push_char(&mut s, ',');
        push_char(&mut s, ' ');
        push_char(&mut s, 's');
        push_char(&mut s, 'l');
        push_char(&mut s, 'a');
        push_char(&mut s, 'v');
        push_char(&mut s, 'e');
        push_char(&mut s, ':');
        push_char(&mut s, ' ');
        if self.is_slave {
            push_char(&mut s, 't');
            push_char(&mut s, 'r');
            push_char(&mut s, 'u');
            push_char(&mut s, 'e');
        } else {
            push_char(&mut s, 'f');
            push_char(&mut s, 'a');
            push_char(&mut s, 'l');
            push_char(&mut s, 's');
            push_char(&mut s, 'e');
        }
        push_char(&mut s, ')');
        assert(s@ =~= connection_text(self.remote_bda@, self.id, self.is_slave));
        s
    }
}

/// The first `n` bytes of an address, colon-separated.
pub open spec fn address_text(bda: Seq<u8>, n: nat) -> Seq<char>
    decreases n,
{
    if n == 0 {
        Seq::empty()
    } else if n == 1 {
        hex_upper(bda[0] as nat, 2)
    } else {
        address_text(bda, (n - 1) as nat) + seq![':'] + hex_upper(bda[n - 1] as nat, 2)
    }
}

/// The text of a connection (see `Connection::to_string`).
pub open spec fn connection_text(bda: Seq<u8>, id: u16, is_slave: bool) -> Seq<char> {
    address_text(bda, 6) + seq![' ', '('] + decimal(id as nat) + seq![',', ' ', 's', 'l', 'a', 'v', 'e', ':', ' ']
        + (if is_slave { seq!['t', 'r', 'u', 'e'] } else { seq!['f', 'a', 'l', 's', 'e'] }) + seq![')']
}

} // verus!
