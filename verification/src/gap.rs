//! The Generic Access Profile, classic and Low Energy: the class of device,
//! the classification of native GAP events and the reading of the C strings
//! they carry, bonded-device lists, and the BLE security and advertising
//! parameters.

use vstd::prelude::*;
use vstd::string::StringSliceAdditionalSpecFns;

use crate::error::EspError;
use crate::sequence::{ran_until_failure, run_result, run_steps};

verus! {

// ---------------------------------------------------------------------------
// Class of device
// ---------------------------------------------------------------------------

/// A class of device (`esp_bt_cod_t`): a 6-bit minor class at bits 2 to 7,
/// a 5-bit major class at bits 8 to 12 and an 11-bit service class at bits
/// 13 to 23 of a 32-bit word.
#[derive(Debug, Clone, Copy)]
pub struct Cod {
    raw: u32,
}

/// The minor class field of a raw class of device.
pub open spec fn cod_minor(raw: u32) -> u32 {
    (raw >> 2u32) & 0x3fu32
}

/// The major class field of a raw class of device.
pub open spec fn cod_major(raw: u32) -> u32 {
    (raw >> 8u32) & 0x1fu32
}

/// The service class field of a raw class of device.
pub open spec fn cod_service(raw: u32) -> u32 {
    (raw >> 13u32) & 0x7ffu32
}

impl Cod {
    /// The raw word.
    pub closed spec fn spec_raw(self) -> u32 {
        self.raw
    }

    /// The class with the given fields, each cut to its width; the other
    /// bits are zero.
    pub fn new(major: u32, minor: u32, service: u32) -> (c: Self)
        ensures
            cod_major(c.spec_raw()) == major & 0x1f,
            cod_minor(c.spec_raw()) == minor & 0x3f,
            cod_service(c.spec_raw()) == service & 0x7ff,
            c.spec_raw() & 0xff000003u32 == 0,
    {
        let raw: u32 = ((minor & 0x3f) << 2u32) | ((major & 0x1f) << 8u32) | ((service & 0x7ff) << 13u32);
        assert(
            (raw >> 8u32) & 0x1fu32 == major & 0x1f
            && (raw >> 2u32) & 0x3fu32 == minor & 0x3f
            && (raw >> 13u32) & 0x7ffu32 == service & 0x7ff
            && raw & 0xff000003u32 == 0
        ) by (bit_vector)
            requires
                raw == ((minor & 0x3f) << 2u32) | ((major & 0x1f) << 8u32) | ((service & 0x7ff) << 13u32);
        Cod { raw }
    }

    /// The class from its raw word.
    pub fn from_raw(raw: u32) -> (c: Self)
        ensures
            c.spec_raw() == raw,
    {
        Cod { raw }
    }

    /// The raw word.
    pub fn raw(&self) -> (r: u32)
        ensures
            r == self.spec_raw(),
    {
        self.raw
    }

    /// The major class.
    pub fn major(&self) -> (m: u32)
        ensures
            m == cod_major(self.spec_raw()),
    {
        (self.raw >> 8u32) & 0x1f
    }

    /// The minor class.
    pub fn minor(&self) -> (m: u32)
        ensures
            m == cod_minor(self.spec_raw()),
    {
        (self.raw >> 2u32) & 0x3f
    }

    /// The service class.
    pub fn service(&self) -> (s: u32)
        ensures
            s == cod_service(self.spec_raw()),
    {
        (self.raw >> 13u32) & 0x7ff
    }

    /// Whether two classes are the same: equal major, minor and service
    /// classes (the reserved bits do not count).
    pub fn same_as(&self, other: &Cod) -> (b: bool)
        ensures
            b == (cod_major(self.spec_raw()) == cod_major(other.spec_raw())
                && cod_minor(self.spec_raw()) == cod_minor(other.spec_raw())
                && cod_service(self.spec_raw()) == cod_service(other.spec_raw())),
    {
        self.major() == other.major() && self.minor() == other.minor() && self.service() == other.service()
    }
}

/// Reading back the fields of a class built from fields in range gives the
/// fields.
pub proof fn lemma_cod_fields_round_trip(major: u32, minor: u32, service: u32, raw: u32)
    requires
        major < 32,
        minor < 64,
        service < 2048,
        cod_major(raw) == major & 0x1f,
        cod_minor(raw) == minor & 0x3f,
        cod_service(raw) == service & 0x7ff,
    ensures
        cod_major(raw) == major,
        cod_minor(raw) == minor,
        cod_service(raw) == service,
{
    assert(major & 0x1f == major && minor & 0x3f == minor && service & 0x7ff == service) by (bit_vector)
        requires major < 32, minor < 64, service < 2048;
}

// ---------------------------------------------------------------------------
// Native GAP events
// ---------------------------------------------------------------------------

/// The kind of a native classic GAP event (`esp_bt_gap_cb_event_t`).
#[derive(Debug, Clone, Copy, PartialEq, Eq, Structural)]
pub enum GapEventKind {
    DeviceDiscovered,
    DiscoveryStateChanged,
    RemoteServiceDiscovered,
    RemoteServiceDetails,
    AuthenticationCompleted,
    PairingPinRequest,
    PairingUserConfirmationRequest,
    SspPasskey,
    SspPasskeyRequest,
    Rssi,
    EirDataConfigured,
    AfhChannelsConfigured,
    RemoteName,
    ModeChange,
    BondedServiceRemoved,
    QosComplete,
    AclConnected,
    AclDisconnected,
    Other,
}

/// The kind of the native event code `event`: codes 0 to 17 in the order
/// above, anything else `Other`.
pub open spec fn gap_event_kind(event: u32) -> GapEventKind {
    if event == 0 { GapEventKind::DeviceDiscovered }
    else if event == 1 { GapEventKind::DiscoveryStateChanged }
    else if event == 2 { GapEventKind::RemoteServiceDiscovered }
    else if event == 3 { GapEventKind::RemoteServiceDetails }
    else if event == 4 { GapEventKind::AuthenticationCompleted }
    else if event == 5 { GapEventKind::PairingPinRequest }
    else if event == 6 { GapEventKind::PairingUserConfirmationRequest }
    else if event == 7 { GapEventKind::SspPasskey }
    else if event == 8 { GapEventKind::SspPasskeyRequest }
    else if event == 9 { GapEventKind::Rssi }
    else if event == 10 { GapEventKind::EirDataConfigured }
    else if event == 11 { GapEventKind::AfhChannelsConfigured }
    else if event == 12 { GapEventKind::RemoteName }
    else if event == 13 { GapEventKind::ModeChange }
    else if event == 14 { GapEventKind::BondedServiceRemoved }
    else if event == 15 { GapEventKind::QosComplete }
    else if event == 16 { GapEventKind::AclConnected }
    else if event == 17 { GapEventKind::AclDisconnected }
    else { GapEventKind::Other }
}

impl GapEventKind {
    /// The kind of a native event code (see `gap_event_kind`).
    pub fn from_code(event: u32) -> (k: GapEventKind)
        ensures
            k == gap_event_kind(event),
    {
        if event == 0 { GapEventKind::DeviceDiscovered }
        else if event == 1 { GapEventKind::DiscoveryStateChanged }
        else if event == 2 { GapEventKind::RemoteServiceDiscovered }
        else if event == 3 { GapEventKind::RemoteServiceDetails }
        else if event == 4 { GapEventKind::AuthenticationCompleted }
        else if event == 5 { GapEventKind::PairingPinRequest }
        else if event == 6 { GapEventKind::PairingUserConfirmationRequest }
        else if event == 7 { GapEventKind::SspPasskey }
        else if event == 8 { GapEventKind::SspPasskeyRequest }
        else if event == 9 { GapEventKind::Rssi }
        else if event == 10 { GapEventKind::EirDataConfigured }
        else if event == 11 { GapEventKind::AfhChannelsConfigured }
        else if event == 12 { GapEventKind::RemoteName }
        else if event == 13 { GapEventKind::ModeChange }
        else if event == 14 { GapEventKind::BondedServiceRemoved }
        else if event == 15 { GapEventKind::QosComplete }
        else if event == 16 { GapEventKind::AclConnected }
        else if event == 17 { GapEventKind::AclDisconnected }
        else { GapEventKind::Other }
    }
}

/// The kind of a discovered device's property (`esp_bt_gap_dev_prop_type_t`).
#[derive(Debug, Clone, Copy, PartialEq, Eq, Structural)]
pub enum DevicePropKind {
    BdName,
    Cod,
    Rssi,
    Eir,
}

/// The property kind of native type code `t`: 1 to 4 in the order above.
pub open spec fn device_prop_kind(t: u32) -> Option<DevicePropKind> {
    if t == 1 {
        Some(DevicePropKind::BdName)
    } else if t == 2 {
        Some(DevicePropKind::Cod)
    } else if t == 3 {
        Some(DevicePropKind::Rssi)
    } else if t == 4 {
        Some(DevicePropKind::Eir)
    } else {
        None
    }
}

impl DevicePropKind {
    /// The kind of a native property type code, if it is one of the four
    /// (the stack reports no other).
    pub fn from_code(t: u32) -> (k: Option<DevicePropKind>)
        ensures
            k == device_prop_kind(t),
    {
        if t == 1 {
            Some(DevicePropKind::BdName)
        } else if t == 2 {
            Some(DevicePropKind::Cod)
        } else if t == 3 {
            Some(DevicePropKind::Rssi)
        } else if t == 4 {
            Some(DevicePropKind::Eir)
        } else {
            None
        }
    }
}

/// The flags of extended inquiry response data, one bit each from bit 0 in
/// the order of the fields.
#[derive(Debug, Clone, Copy, PartialEq, Eq, Structural)]
pub struct EirFlags {
    pub limit_disc: bool,
    pub gen_disc: bool,
    pub bredr_not_spt: bool,
    pub dmt_controller_spt: bool,
    pub dmt_host_spt: bool,
}

/// The bit mask of a set of EIR flags.
pub open spec fn eir_flag_bits(f: EirFlags) -> u8 {
    (if f.limit_disc { 1u8 } else { 0u8 }) | (if f.gen_disc { 2u8 } else { 0u8 }) | (if f.bredr_not_spt {
        4u8
    } else {
        0u8
    }) | (if f.dmt_controller_spt { 8u8 } else { 0u8 }) | (if f.dmt_host_spt { 16u8 } else { 0u8 })
}

/// The set of EIR flags whose bits are set in `bits`.
pub open spec fn eir_flags_of(bits: u8) -> EirFlags {
    EirFlags {
        limit_disc: bits & 1 != 0,
        gen_disc: bits & 2 != 0,
        bredr_not_spt: bits & 4 != 0,
        dmt_controller_spt: bits & 8 != 0,
        dmt_host_spt: bits & 16 != 0,
    }
}

impl EirFlags {
    /// The bit mask of these flags.
    pub fn as_repr(&self) -> (b: u8)
        ensures
            b == eir_flag_bits(*self),
    {
        (if self.limit_disc { 1u8 } else { 0u8 }) | (if self.gen_disc { 2u8 } else { 0u8 }) | (if self.bredr_not_spt {
            4u8
        } else {
            0u8
        }) | (if self.dmt_controller_spt { 8u8 } else { 0u8 }) | (if self.dmt_host_spt { 16u8 } else { 0u8 })
    }

    /// The flags set in `bits`, which holds no bit above the five flags.
    pub fn from_repr(bits: u8) -> (f: EirFlags)
        requires
            bits < 32,
        ensures
            f == eir_flags_of(bits),
    {
        EirFlags {
            limit_disc: bits & 1 != 0,
            gen_disc: bits & 2 != 0,
            bredr_not_spt: bits & 4 != 0,
            dmt_controller_spt: bits & 8 != 0,
            dmt_host_spt: bits & 16 != 0,
        }
    }
}

/// A set of EIR flags is given back by its bit mask, and a mask of the five
/// flags by the set it names.
pub proof fn lemma_eir_flags_round_trip(f: EirFlags, bits: u8)
    requires
        bits < 32,
    ensures
        eir_flags_of(eir_flag_bits(f)) == f,
        eir_flag_bits(f) < 32,
        eir_flag_bits(eir_flags_of(bits)) == bits,
{
    let (a, b, c, d, e) = (f.limit_disc, f.gen_disc, f.bredr_not_spt, f.dmt_controller_spt, f.dmt_host_spt);
    let x: u8 = eir_flag_bits(f);
    assert(x == (if a { 1u8 } else { 0u8 }) | (if b { 2u8 } else { 0u8 }) | (if c { 4u8 } else { 0u8 }) | (if d {
        8u8
    } else {
        0u8
    }) | (if e { 16u8 } else { 0u8 }));
    assert(x < 32 && (x & 1 != 0) == a && (x & 2 != 0) == b && (x & 4 != 0) == c && (x & 8 != 0) == d && (x & 16 != 0)
        == e) by (bit_vector)
        requires
            x == (if a { 1u8 } else { 0u8 }) | (if b { 2u8 } else { 0u8 }) | (if c { 4u8 } else { 0u8 }) | (if d {
                8u8
            } else {
                0u8
            }) | (if e { 16u8 } else { 0u8 }),
    ;
    assert((if bits & 1 != 0 { 1u8 } else { 0u8 }) | (if bits & 2 != 0 { 2u8 } else { 0u8 }) | (if bits & 4 != 0 {
        4u8
    } else {
        0u8
    }) | (if bits & 8 != 0 { 8u8 } else { 0u8 }) | (if bits & 16 != 0 { 16u8 } else { 0u8 }) == bits) by (bit_vector)
        requires
            bits < 32,
    ;
}

/// Native discovery state: stopped.
pub const ESP_BT_GAP_DISCOVERY_STOPPED: u32 = 0;

/// Whether a discovery-state event reports that discovery stopped (any
/// other state counts as started).
pub fn discovery_stopped(state: u32) -> (b: bool)
    ensures
        b == (state == ESP_BT_GAP_DISCOVERY_STOPPED),
{
    state == ESP_BT_GAP_DISCOVERY_STOPPED
}

/// The length of the C string at the start of `buf`: the position of its
/// first zero byte.
pub open spec fn c_str_len_of(buf: Seq<u8>, n: int) -> bool {
    &&& 0 <= n < buf.len()
    &&& buf[n] == 0
    &&& forall|i: int| 0 <= i < n ==> buf[i] != 0
}

/// The bytes of the C string at the start of `buf` (a device name in an
/// event), up to its terminating zero, which the buffer must hold.
pub fn c_str_bytes(buf: &[u8]) -> (r: Vec<u8>)
    requires
        exists|n: int| 0 <= n < buf@.len() && buf@[n] == 0,
    ensures
        c_str_len_of(buf@, r@.len() as int),
        r@ == buf@.subrange(0, r@.len() as int),
{
    let mut r: Vec<u8> = Vec::new();
    let mut i: usize = 0;
    while i < buf.len() && buf[i] != 0
        invariant
            i <= buf@.len(),
            exists|n: int| 0 <= n < buf@.len() && buf@[n] == 0,
            forall|k: int| 0 <= k < i ==> buf@[k] != 0,
            r@ =~= buf@.subrange(0, i as int),
        decreases buf.len() - i,
    {
        r.push(buf[i]);
        i = i + 1;
    }
    if i == buf.len() {
        proof {
            let n = choose|n: int| 0 <= n < buf@.len() && buf@[n] == 0;
            assert(buf@[n] != 0);
        }
    }
    r
}

/// The part of a bonded-device buffer of `buf_len` entries that the native
/// list filled, when it reported `dev_num` devices: the smaller of the two.
pub fn bonded_list_len(dev_num: usize, buf_len: usize) -> (n: usize)
    ensures
        n == if dev_num < buf_len { dev_num } else { buf_len },
{
    if dev_num < buf_len { dev_num } else { buf_len }
}

// ---------------------------------------------------------------------------
// BLE security
// ---------------------------------------------------------------------------

/// The keys exchanged during BLE pairing: the single keys and the
/// combinations the stack accepts.
#[derive(Debug, Clone, Copy, PartialEq, Eq, Structural)]
pub enum KeyMask {
    EncryptionKey,
    IdentityResolvingKey,
    ConnectionSignatureResolvingKey,
    LinkKey,
    Inner0011,
    Inner0101,
    Inner1001,
    Inner1010,
    Inner1100,
    Inner1101,
    Inner1011,
    Inner1111,
}

/// The bit mask of a key set.
pub open spec fn key_mask_bits(k: KeyMask) -> u8 {
    match k {
        KeyMask::EncryptionKey => 0b0001,
        KeyMask::IdentityResolvingKey => 0b0010,
        KeyMask::ConnectionSignatureResolvingKey => 0b0100,
        KeyMask::LinkKey => 0b1000,
        KeyMask::Inner0011 => 0b0011,
        KeyMask::Inner0101 => 0b0101,
        KeyMask::Inner1001 => 0b1001,
        KeyMask::Inner1010 => 0b1010,
        KeyMask::Inner1100 => 0b1100,
        KeyMask::Inner1101 => 0b1101,
        KeyMask::Inner1011 => 0b1011,
        KeyMask::Inner1111 => 0b1111,
    }
}

/// Whether a bit mask is one of the key sets.
pub open spec fn is_key_mask(bits: u8) -> bool {
    bits == 0b0001 || bits == 0b0010 || bits == 0b0100 || bits == 0b1000 || bits == 0b0011
        || bits == 0b0101 || bits == 0b1001 || bits == 0b1010 || bits == 0b1100 || bits == 0b1101
        || bits == 0b1011 || bits == 0b1111
}

impl KeyMask {
    /// The bit mask of this key set.
    pub fn bits(self) -> (b: u8)
        ensures
            b == key_mask_bits(self),
    {
        match self {
            KeyMask::EncryptionKey => 0b0001,
            KeyMask::IdentityResolvingKey => 0b0010,
            KeyMask::ConnectionSignatureResolvingKey => 0b0100,
            KeyMask::LinkKey => 0b1000,
            KeyMask::Inner0011 => 0b0011,
            KeyMask::Inner0101 => 0b0101,
            KeyMask::Inner1001 => 0b1001,
            KeyMask::Inner1010 => 0b1010,
            KeyMask::Inner1100 => 0b1100,
            KeyMask::Inner1101 => 0b1101,
            KeyMask::Inner1011 => 0b1011,
            KeyMask::Inner1111 => 0b1111,
        }
    }

    /// The key set with bit mask `bits`; `None` when no key set has it.
    pub fn from_bits(bits: u8) -> (k: Option<KeyMask>)
        ensures
            k is Some <==> is_key_mask(bits),
            k matches Some(m) ==> key_mask_bits(m) == bits,
    {
        if bits == 0b0001 { Some(KeyMask::EncryptionKey) }
        else if bits == 0b0010 { Some(KeyMask::IdentityResolvingKey) }
        else if bits == 0b0100 { Some(KeyMask::ConnectionSignatureResolvingKey) }
        else if bits == 0b1000 { Some(KeyMask::LinkKey) }
        else if bits == 0b0011 { Some(KeyMask::Inner0011) }
        else if bits == 0b0101 { Some(KeyMask::Inner0101) }
        else if bits == 0b1001 { Some(KeyMask::Inner1001) }
        else if bits == 0b1010 { Some(KeyMask::Inner1010) }
        else if bits == 0b1100 { Some(KeyMask::Inner1100) }
        else if bits == 0b1101 { Some(KeyMask::Inner1101) }
        else if bits == 0b1011 { Some(KeyMask::Inner1011) }
        else if bits == 0b1111 { Some(KeyMask::Inner1111) }
        else { None }
    }

    /// The union of two key sets, which must be a key set itself (the stack
    /// has no code for the others).
    pub fn union(self, rhs: KeyMask) -> (k: KeyMask)
        requires
            is_key_mask(key_mask_bits(self) | key_mask_bits(rhs)),
        ensures
            key_mask_bits(k) == key_mask_bits(self) | key_mask_bits(rhs),
    {
        let b = self.bits() | rhs.bits();
        match KeyMask::from_bits(b) {
            Some(k) => k,
            None => self,
        }
    }
}

/// Every key set's mask names it back: masks and key sets correspond one to
/// one.
pub proof fn lemma_key_mask_bits_distinct(a: KeyMask, b: KeyMask)
    ensures
        key_mask_bits(a) == key_mask_bits(b) <==> a == b,
        is_key_mask(key_mask_bits(a)),
{
}

/// The BLE authentication requirements.
#[derive(Debug, Clone, Copy, PartialEq, Eq, Structural)]
pub enum AuthenticationRequest {
    NoBonding,
    Bonding,
    Mitm,
    MitmBonding,
    SecureOnly,
    SecureBonding,
    SecureMitm,
    SecureMitmBonding,
}

impl AuthenticationRequest {
    /// The native code: bonding is bit 0, MITM protection bit 1, secure
    /// connections bit 2.
    pub fn code(self) -> (c: u8)
        ensures
            c == match self {
                AuthenticationRequest::NoBonding => 0u8,
                AuthenticationRequest::Bonding => 1u8,
                AuthenticationRequest::Mitm => 2u8,
                AuthenticationRequest::MitmBonding => 3u8,
                AuthenticationRequest::SecureOnly => 4u8,
                AuthenticationRequest::SecureBonding => 5u8,
                AuthenticationRequest::SecureMitm => 6u8,
                AuthenticationRequest::SecureMitmBonding => 7u8,
            },
    {
        match self {
            AuthenticationRequest::NoBonding => 0,
            AuthenticationRequest::Bonding => 1,
            AuthenticationRequest::Mitm => 2,
            AuthenticationRequest::MitmBonding => 3,
            AuthenticationRequest::SecureOnly => 4,
            AuthenticationRequest::SecureBonding => 5,
            AuthenticationRequest::SecureMitm => 6,
            AuthenticationRequest::SecureMitmBonding => 7,
        }
    }
}

/// The BLE input/output capabilities.
#[derive(Debug, Clone, Copy, PartialEq, Eq, Structural)]
pub enum IOCapabilities {
    DisplayOnly,
    DisplayYesNo,
    KeyboardOnly,
    NoInputNoOutput,
    Keyboard,
}

impl IOCapabilities {
    /// The native code, 0 to 4 in the order above.
    pub fn code(self) -> (c: u8)
        ensures
            c == match self {
                IOCapabilities::DisplayOnly => 0u8,
                IOCapabilities::DisplayYesNo => 1u8,
                IOCapabilities::KeyboardOnly => 2u8,
                IOCapabilities::NoInputNoOutput => 3u8,
                IOCapabilities::Keyboard => 4u8,
            },
    {
        match self {
            IOCapabilities::DisplayOnly => 0,
            IOCapabilities::DisplayYesNo => 1,
            IOCapabilities::KeyboardOnly => 2,
            IOCapabilities::NoInputNoOutput => 3,
            IOCapabilities::Keyboard => 4,
        }
    }
}

/// The BLE security configuration of the GAP.
#[derive(Debug, Clone, Copy, PartialEq, Eq, Structural)]
pub struct SecurityConfiguration {
    pub auth_req_mode: AuthenticationRequest,
    pub io_capabilities: IOCapabilities,
    pub initiator_key: Option<KeyMask>,
    pub responder_key: Option<KeyMask>,
    pub max_key_size: Option<u8>,
    pub min_key_size: Option<u8>,
    pub static_passkey: Option<u32>,
    pub only_accept_specified_auth: bool,
    pub enable_oob: bool,
}

/// The configuration of no bonding, display-only, no key choices, no
/// passkey, nothing enforced and no out-of-band pairing.
pub open spec fn default_security() -> SecurityConfiguration {
    SecurityConfiguration {
        auth_req_mode: AuthenticationRequest::NoBonding,
        io_capabilities: IOCapabilities::DisplayOnly,
        initiator_key: None,
        responder_key: None,
        max_key_size: None,
        min_key_size: None,
        static_passkey: None,
        only_accept_specified_auth: false,
        enable_oob: false,
    }
}

impl Default for SecurityConfiguration {
    fn default() -> (c: Self)
        ensures
            c == default_security(),
    {
        SecurityConfiguration {
            auth_req_mode: AuthenticationRequest::NoBonding,
            io_capabilities: IOCapabilities::DisplayOnly,
            initiator_key: None,
            responder_key: None,
            max_key_size: None,
            min_key_size: None,
            static_passkey: None,
            only_accept_specified_auth: false,
            enable_oob: false,
        }
    }
}

/// One security parameter handed to the stack, with its value.
#[derive(Debug, Clone, Copy, PartialEq, Eq, Structural)]
pub enum SecurityParam {
    IoCapMode(u8),
    InitiatorKey(u8),
    ResponderKey(u8),
    MaxKeySize(u8),
    MinKeySize(u8),
    StaticPasskey(u32),
    OnlyAcceptSpecifiedAuth(bool),
    OobSupport(bool),
}

/// The native code of an I/O capability.
pub open spec fn io_cap_code(c: IOCapabilities) -> u8 {
    match c {
        IOCapabilities::DisplayOnly => 0u8,
        IOCapabilities::DisplayYesNo => 1u8,
        IOCapabilities::KeyboardOnly => 2u8,
        IOCapabilities::NoInputNoOutput => 3u8,
        IOCapabilities::Keyboard => 4u8,
    }
}

/// The parameter `p` as a sequence of at most one.
pub open spec fn opt_param(p: Option<SecurityParam>) -> Seq<SecurityParam> {
    match p {
        Some(x) => seq![x],
        None => Seq::empty(),
    }
}

/// The initiator key parameter, where the configuration gives one.
pub open spec fn initiator_param(c: SecurityConfiguration) -> Option<SecurityParam> {
    match c.initiator_key {
        Some(k) => Some(SecurityParam::InitiatorKey(key_mask_bits(k))),
        None => None,
    }
}

/// The responder key parameter, where the configuration gives one.
pub open spec fn responder_param(c: SecurityConfiguration) -> Option<SecurityParam> {
    match c.responder_key {
        Some(k) => Some(SecurityParam::ResponderKey(key_mask_bits(k))),
        None => None,
    }
}

/// The maximum key size parameter, where the configuration gives one.
pub open spec fn max_key_size_param(c: SecurityConfiguration) -> Option<SecurityParam> {
    match c.max_key_size {
        Some(n) => Some(SecurityParam::MaxKeySize(n)),
        None => None,
    }
}

/// The minimum key size parameter, where the configuration gives one.
pub open spec fn min_key_size_param(c: SecurityConfiguration) -> Option<SecurityParam> {
    match c.min_key_size {
        Some(n) => Some(SecurityParam::MinKeySize(n)),
        None => None,
    }
}

/// The static passkey parameter, where the configuration gives one.
pub open spec fn passkey_param(c: SecurityConfiguration) -> Option<SecurityParam> {
    match c.static_passkey {
        Some(p) => Some(SecurityParam::StaticPasskey(p)),
        None => None,
    }
}

/// The parameters a configuration sets, in order: the I/O capabilities; the
/// initiator and responder keys, the maximum and minimum key sizes and the
/// static passkey, each where given; whether only the specified
/// authentication is accepted; out-of-band support. The authentication
/// request mode is not among them.
pub open spec fn security_params(c: SecurityConfiguration) -> Seq<SecurityParam> {
    seq![SecurityParam::IoCapMode(io_cap_code(c.io_capabilities))]
        + opt_param(initiator_param(c))
        + opt_param(responder_param(c))
        + opt_param(max_key_size_param(c))
        + opt_param(min_key_size_param(c))
        + opt_param(passkey_param(c))
        + seq![
            SecurityParam::OnlyAcceptSpecifiedAuth(c.only_accept_specified_auth),
            SecurityParam::OobSupport(c.enable_oob),
        ]
}

fn push_param(params: &mut Vec<SecurityParam>, p: Option<SecurityParam>)
    ensures
        final(params)@ == old(params)@ + opt_param(p),
{
    if let Some(x) = p {
        params.push(x);
    }
    assert(final(params)@ =~= old(params)@ + opt_param(p));
}

fn push_params(params: &mut Vec<SecurityParam>, a: SecurityParam, b: SecurityParam)
    ensures
        final(params)@ == old(params)@ + seq![a, b],
{
    params.push(a);
    params.push(b);
    assert(final(params)@ =~= old(params)@ + seq![a, b]);
}

/// The parameters of `conf`, in the order they are set (see
/// `security_params`).
pub fn security_param_list(conf: &SecurityConfiguration) -> (v: Vec<SecurityParam>)
    ensures
        v@ == security_params(*conf),
{
    let c = *conf;
    let mut params: Vec<SecurityParam> = Vec::new();
    push_param(&mut params, Some(SecurityParam::IoCapMode(c.io_capabilities.code())));
    assert(Seq::<SecurityParam>::empty() + opt_param(Some(SecurityParam::IoCapMode(io_cap_code(c.io_capabilities))))
        =~= seq![SecurityParam::IoCapMode(io_cap_code(c.io_capabilities))]);
    let initiator = match c.initiator_key {
        Some(k) => Some(SecurityParam::InitiatorKey(k.bits())),
        None => None,
    };
    push_param(&mut params, initiator);
    let responder = match c.responder_key {
        Some(k) => Some(SecurityParam::ResponderKey(k.bits())),
        None => None,
    };
    push_param(&mut params, responder);
    let max_size = match c.max_key_size {
        Some(n) => Some(SecurityParam::MaxKeySize(n)),
        None => None,
    };
    push_param(&mut params, max_size);
    let min_size = match c.min_key_size {
        Some(n) => Some(SecurityParam::MinKeySize(n)),
        None => None,
    };
    push_param(&mut params, min_size);
    let passkey = match c.static_passkey {
        Some(p) => Some(SecurityParam::StaticPasskey(p)),
        None => None,
    };
    push_param(&mut params, passkey);
    push_params(
        &mut params,
        SecurityParam::OnlyAcceptSpecifiedAuth(c.only_accept_specified_auth),
        SecurityParam::OobSupport(c.enable_oob),
    );
    params
}

proof fn lemma_contains_add(a: Seq<SecurityParam>, b: Seq<SecurityParam>, x: SecurityParam)
    ensures
        (a + b).contains(x) <==> a.contains(x) || b.contains(x),
{
    if (a + b).contains(x) {
        let i = choose|i: int| 0 <= i < (a + b).len() && (a + b)[i] == x;
        if i < a.len() {
            assert(a[i] == x);
        } else {
            assert(b[i - a.len()] == x);
        }
    }
    if a.contains(x) {
        let i = choose|i: int| 0 <= i < a.len() && a[i] == x;
        assert((a + b)[i] == x);
    }
    if b.contains(x) {
        let i = choose|i: int| 0 <= i < b.len() && b[i] == x;
        assert((a + b)[i + a.len()] == x);
    }
}

proof fn lemma_opt_contains(p: Option<SecurityParam>, x: SecurityParam)
    ensures
        opt_param(p).contains(x) <==> p == Some(x),
{
    if p == Some(x) {
        assert(opt_param(p)[0] == x);
    }
}

proof fn lemma_pair_contains(a: SecurityParam, b: SecurityParam, x: SecurityParam)
    ensures
        seq![a, b].contains(x) <==> x == a || x == b,
{
    if x == a {
        assert(seq![a, b][0] == x);
    }
    if x == b {
        assert(seq![a, b][1] == x);
    }
}

proof fn lemma_security_params_contain(c: SecurityConfiguration, x: SecurityParam)
    ensures
        security_params(c).contains(x) <==> {
            ||| x == SecurityParam::IoCapMode(io_cap_code(c.io_capabilities))
            ||| initiator_param(c) == Some(x)
            ||| responder_param(c) == Some(x)
            ||| max_key_size_param(c) == Some(x)
            ||| min_key_size_param(c) == Some(x)
            ||| passkey_param(c) == Some(x)
            ||| x == SecurityParam::OnlyAcceptSpecifiedAuth(c.only_accept_specified_auth)
            ||| x == SecurityParam::OobSupport(c.enable_oob)
        },
{
    let s0 = seq![SecurityParam::IoCapMode(io_cap_code(c.io_capabilities))];
    let s1 = s0 + opt_param(initiator_param(c));
    let s2 = s1 + opt_param(responder_param(c));
    let s3 = s2 + opt_param(max_key_size_param(c));
    let s4 = s3 + opt_param(min_key_size_param(c));
    let s5 = s4 + opt_param(passkey_param(c));
    let tail = seq![
        SecurityParam::OnlyAcceptSpecifiedAuth(c.only_accept_specified_auth),
        SecurityParam::OobSupport(c.enable_oob),
    ];
    assert(security_params(c) == s5 + tail);
    if x == SecurityParam::IoCapMode(io_cap_code(c.io_capabilities)) {
        assert(s0[0] == x);
    }
    if s0.contains(x) {
        let i = choose|i: int| 0 <= i < s0.len() && s0[i] == x;
        assert(i == 0);
    }
    lemma_contains_add(s0, opt_param(initiator_param(c)), x);
    lemma_contains_add(s1, opt_param(responder_param(c)), x);
    lemma_contains_add(s2, opt_param(max_key_size_param(c)), x);
    lemma_contains_add(s3, opt_param(min_key_size_param(c)), x);
    lemma_contains_add(s4, opt_param(passkey_param(c)), x);
    lemma_contains_add(s5, tail, x);
    lemma_opt_contains(initiator_param(c), x);
    lemma_opt_contains(responder_param(c), x);
    lemma_opt_contains(max_key_size_param(c), x);
    lemma_opt_contains(min_key_size_param(c), x);
    lemma_opt_contains(passkey_param(c), x);
    lemma_pair_contains(
        SecurityParam::OnlyAcceptSpecifiedAuth(c.only_accept_specified_auth),
        SecurityParam::OobSupport(c.enable_oob),
        x,
    );
}

/// Each security parameter carries its own field of the configuration: the
/// maximum key size parameter is set, with size `n`, exactly when the
/// configuration's maximum key size is `n`; likewise the minimum key size
/// and the static passkey. The I/O capability, the accept-only-specified
/// flag and the out-of-band flag are always set, with the configuration's
/// values; and the list starts with the I/O capability.
pub proof fn lemma_security_params_carry_fields(c: SecurityConfiguration, n: u8, passkey: u32)
    ensures
        security_params(c).contains(SecurityParam::MaxKeySize(n)) <==> c.max_key_size == Some(n),
        security_params(c).contains(SecurityParam::MinKeySize(n)) <==> c.min_key_size == Some(n),
        security_params(c).contains(SecurityParam::StaticPasskey(passkey)) <==> c.static_passkey == Some(passkey),
        security_params(c).contains(SecurityParam::IoCapMode(n)) <==> n == io_cap_code(c.io_capabilities),
        security_params(c).contains(SecurityParam::OnlyAcceptSpecifiedAuth(c.only_accept_specified_auth)),
        !security_params(c).contains(SecurityParam::OnlyAcceptSpecifiedAuth(!c.only_accept_specified_auth)),
        security_params(c).contains(SecurityParam::OobSupport(c.enable_oob)),
        !security_params(c).contains(SecurityParam::OobSupport(!c.enable_oob)),
        security_params(c)[0] == SecurityParam::IoCapMode(io_cap_code(c.io_capabilities)),
{
    lemma_security_params_contain(c, SecurityParam::MaxKeySize(n));
    lemma_security_params_contain(c, SecurityParam::MinKeySize(n));
    lemma_security_params_contain(c, SecurityParam::StaticPasskey(passkey));
    lemma_security_params_contain(c, SecurityParam::IoCapMode(n));
    lemma_security_params_contain(c, SecurityParam::OnlyAcceptSpecifiedAuth(c.only_accept_specified_auth));
    lemma_security_params_contain(c, SecurityParam::OnlyAcceptSpecifiedAuth(!c.only_accept_specified_auth));
    lemma_security_params_contain(c, SecurityParam::OobSupport(c.enable_oob));
    lemma_security_params_contain(c, SecurityParam::OobSupport(!c.enable_oob));
}

/// Hands the configuration's parameters to the stack through `set`, in the
/// order of `security_params`, and stops at the first that is refused.
pub fn set_security_conf<F: Fn(SecurityParam) -> i32>(conf: &SecurityConfiguration, set: &F) -> (r: Result<(), EspError>)
    requires
        forall|p: SecurityParam| call_requires(*set, (p,)),
    ensures
        exists|codes: Seq<i32>| #[trigger] ran_until_failure(security_params(*conf), codes, *set)
            && match r {
                Ok(()) => run_result(security_params(*conf).len(), codes) == Ok::<(), i32>(()),
                Err(e) => run_result(security_params(*conf).len(), codes) == Err::<(), i32>(e.spec_code()),
            },
{
    let params = security_param_list(conf);
    run_steps(&params, set)
}

/// The native arguments of a PIN reply: whether the pairing is accepted
/// (a PIN is given) and the PIN's length, narrowed to 8 bits.
pub fn pin_reply(pin: Option<&[u8]>) -> (r: (bool, u8))
    ensures
        r == match pin {
            Some(p) => (true, p@.len() as u8),
            None => (false, 0u8),
        },
{
    match pin {
        Some(p) => (true, p.len() as u8),
        None => (false, 0),
    }
}

/// The native arguments of a passkey reply: whether the pairing is accepted
/// (a passkey is given) and the passkey, zero when none.
pub fn passkey_reply(passkey: Option<u32>) -> (r: (bool, u32))
    ensures
        r == match passkey {
            Some(k) => (true, k),
            None => (false, 0u32),
        },
{
    match passkey {
        Some(k) => (true, k),
        None => (false, 0),
    }
}

/// The length handed to the native call that sets a fixed PIN: the PIN's
/// length in bytes, narrowed to 8 bits.
pub fn fixed_pin_len(pin: &str) -> (n: u8)
    ensures
        n == pin.len() as u8,
{
    pin.len() as u8
}

/// The encryption level asked of a link.
#[derive(Debug, Clone, Copy, PartialEq, Eq, Structural)]
pub enum BleEncryption {
    Encryption,
    EncryptionNoMitm,
    EncryptionMitm,
}

impl BleEncryption {
    /// The native code, 1 to 3 in the order above.
    pub fn code(self) -> (c: u32)
        ensures
            c == match self {
                BleEncryption::Encryption => 1u32,
                BleEncryption::EncryptionNoMitm => 2u32,
                BleEncryption::EncryptionMitm => 3u32,
            },
    {
        match self {
            BleEncryption::Encryption => 1,
            BleEncryption::EncryptionNoMitm => 2,
            BleEncryption::EncryptionMitm => 3,
        }
    }
}

// ---------------------------------------------------------------------------
// BLE advertising
// ---------------------------------------------------------------------------

/// The native advertised appearance of a category number: the category in
/// bits 6 and up, the subcategory (bits 0 to 5) zero.
pub open spec fn appearance_value(category: u16) -> i32 {
    ((category as u32) << 6u32) as i32
}

/// The native advertised appearance of the category number `category`.
pub fn appearance_of(category: u16) -> (a: i32)
    ensures
        a == appearance_value(category),
{
    let c: u32 = category as u32;
    (c << 6u32) as i32
}

/// Advertising flag: general discoverable mode.
pub const ESP_BLE_ADV_FLAG_GEN_DISC: u8 = 0x02;
/// Advertising flag: classic Bluetooth not supported.
pub const ESP_BLE_ADV_FLAG_BREDR_NOT_SPT: u8 = 0x04;
/// Advertising flag: not in a limited discoverable mode.
pub const ESP_BLE_ADV_FLAG_NON_LIMIT_DISC: u8 = 0x00;

/// The advertising data handed to the stack (`esp_ble_adv_data_t`), without
/// the pointers: the flags, the intervals, the appearance and the lengths of
/// the manufacturer data, service data and service UUID.
#[derive(Debug, Clone, Copy, PartialEq, Eq, Structural)]
pub struct AdvData {
    pub set_scan_rsp: bool,
    pub include_name: bool,
    pub include_txpower: bool,
    pub min_interval: i32,
    pub max_interval: i32,
    pub manufacturer_len: u16,
    pub service_data_len: u16,
    pub service_uuid_len: u16,
    pub appearance: i32,
    pub flag: u8,
}

/// The advertising configuration.
#[derive(Debug, Clone, Copy)]
pub struct AdvConfiguration<'a> {
    pub set_scan_rsp: bool,
    pub include_name: bool,
    pub include_txpower: bool,
    pub min_interval: i32,
    pub max_interval: i32,
    pub manufacturer: Option<&'a str>,
    pub service: Option<&'a str>,
    /// The length in bytes of the advertised service UUID, if any.
    pub service_uuid_len: Option<usize>,
    /// The appearance category number.
    pub appearance: u16,
    pub flag: u8,
}

/// The length in bytes of an optional text, zero when absent.
pub open spec fn opt_len(s: Option<&str>) -> nat {
    match s {
        Some(t) => t.len() as nat,
        None => 0,
    }
}

/// The advertising data for a configuration (lengths narrowed to 16 bits).
pub fn adv_data(conf: &AdvConfiguration) -> (d: AdvData)
    ensures
        d.set_scan_rsp == conf.set_scan_rsp,
        d.include_name == conf.include_name,
        d.include_txpower == conf.include_txpower,
        d.min_interval == conf.min_interval,
        d.max_interval == conf.max_interval,
        d.manufacturer_len == opt_len(conf.manufacturer) as u16,
        d.service_data_len == opt_len(conf.service) as u16,
        d.service_uuid_len == match conf.service_uuid_len {
            Some(n) => n as u16,
            None => 0u16,
        },
        d.appearance == appearance_value(conf.appearance),
        d.flag == conf.flag,
{
    let m: usize = match conf.manufacturer {
        Some(t) => t.len(),
        None => 0,
    };
    let s: usize = match conf.service {
        Some(t) => t.len(),
        None => 0,
    };
    let u: usize = match conf.service_uuid_len {
        Some(n) => n,
        None => 0,
    };
    AdvData {
        set_scan_rsp: conf.set_scan_rsp,
        include_name: conf.include_name,
        include_txpower: conf.include_txpower,
        min_interval: conf.min_interval,
        max_interval: conf.max_interval,
        manufacturer_len: m as u16,
        service_data_len: s as u16,
        service_uuid_len: u as u16,
        appearance: appearance_of(conf.appearance),
        flag: conf.flag,
    }
}

} // verus!
