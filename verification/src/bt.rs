//! Bluetooth basics: device addresses, UUIDs, controller modes, the callback
//! slot that native events are dispatched through, the one-time release of
//! controller memory and the bring-up of the Bluetooth driver.

use vstd::prelude::*;

use crate::error::{EspError, ESP_ERR_INVALID_ARG, ESP_ERR_INVALID_STATE, ESP_OK};
use crate::text::{has_nul, is_c_compatible};
use crate::sequence::{ran_until_failure, run_result, run_steps};

verus! {

// ---------------------------------------------------------------------------
// Addresses
// ---------------------------------------------------------------------------

/// A Bluetooth device address (`esp_bd_addr_t`).
#[derive(Debug, Clone, Copy)]
pub struct BdAddr(pub [u8; 6]);

impl BdAddr {
    /// The address's six bytes.
    pub fn raw(&self) -> (r: [u8; 6])
        ensures
            r == self.0,
    {
        self.0
    }
}

// ---------------------------------------------------------------------------
// UUIDs
// ---------------------------------------------------------------------------

/// The little-endian bytes of the `n` lowest bytes of `x`.
pub open spec fn le_bytes(x: nat, n: nat) -> Seq<u8>
    decreases n,
{
    if n == 0 {
        Seq::empty()
    } else {
        seq![(x % 256) as u8] + le_bytes(x / 256, (n - 1) as nat)
    }
}

/// The number whose little-endian bytes are `s`.
pub open spec fn le_value(s: Seq<u8>) -> nat
    decreases s.len(),
{
    if s.len() == 0 {
        0
    } else {
        s[0] as nat + 256 * le_value(s.drop_first())
    }
}

/// `256` to the power `n`.
pub open spec fn pow256(n: nat) -> nat
    decreases n,
{
    if n == 0 {
        1
    } else {
        256 * pow256((n - 1) as nat)
    }
}

/// `n` little-endian bytes hold `x` exactly when `x < 256^n`: reading them
/// back gives `x`.
pub proof fn lemma_le_round_trip(x: nat, n: nat)
    requires
        x < pow256(n),
    ensures
        le_bytes(x, n).len() == n,
        le_value(le_bytes(x, n)) == x,
    decreases n,
{
    if n == 0 {
    } else {
        lemma_le_round_trip(x / 256, (n - 1) as nat);
        let s = le_bytes(x, n);
        assert(s.drop_first() =~= le_bytes(x / 256, (n - 1) as nat));
        assert(x == 256 * (x / 256) + x % 256);
    }
}

/// The plain form of a native UUID (`esp_bt_uuid_t`): its length in bits
/// and its sixteen value bytes, of which the first 2, 4 or 16 are used.
#[derive(Debug, Clone, Copy)]
pub struct RawBtUuid {
    pub len: u16,
    pub uuid: [u8; 16],
}

/// A 16-, 32- or 128-bit Bluetooth UUID.
#[derive(Debug, Clone, Copy)]
pub struct BtUuid {
    raw: RawBtUuid,
}

/// Whether `len` is one of the UUID lengths, in bits.
pub open spec fn valid_uuid_len(len: u16) -> bool {
    len == 16 || len == 32 || len == 128
}

/// The number of value bytes a UUID of `len` bits uses.
pub open spec fn uuid_byte_count(len: u16) -> int {
    if len == 16 {
        2
    } else if len == 32 {
        4
    } else {
        16
    }
}

impl BtUuid {
    #[verifier::type_invariant]
    spec fn inv(self) -> bool {
        valid_uuid_len(self.raw.len)
    }

    /// The length of this UUID in bits.
    pub closed spec fn spec_len(self) -> u16 {
        self.raw.len
    }

    /// The sixteen value bytes of this UUID.
    pub closed spec fn spec_value(self) -> Seq<u8> {
        self.raw.uuid@
    }

    /// The bytes that identify this UUID: the first 2, 4 or 16 value bytes.
    pub open spec fn spec_bytes(self) -> Seq<u8> {
        self.spec_value().subrange(0, uuid_byte_count(self.spec_len()))
    }

    /// The native form of this UUID.
    pub fn raw(&self) -> (r: RawBtUuid)
        ensures
            r.len == self.spec_len(),
            r.uuid@ == self.spec_value(),
    {
        self.raw
    }

    /// A UUID from its native form; `None` when the length is not 16, 32 or
    /// 128 bits.
    pub fn from_raw(raw: RawBtUuid) -> (r: Option<BtUuid>)
        ensures
            r is Some <==> valid_uuid_len(raw.len),
            r matches Some(u) ==> u.spec_len() == raw.len && u.spec_value() == raw.uuid@,
    {
        if raw.len == 16 || raw.len == 32 || raw.len == 128 {
            Some(BtUuid { raw })
        } else {
            None
        }
    }

    /// The value bytes of `x` in native (little-endian) order, zero-padded
    /// to sixteen bytes.
    fn value_bytes(x: u128, n: usize) -> (v: [u8; 16])
        requires
            n <= 16,
        ensures
            v@ == le_bytes(x as nat, n as nat) + Seq::new((16 - n) as nat, |i: int| 0u8),
    {
        let mut v: [u8; 16] = [0u8; 16];
        let mut rest: u128 = x;
        let mut i: usize = 0;
        assert(v@ =~= Seq::new(16, |i: int| 0u8));
        while i < n
            invariant
                n <= 16,
                i <= n,
                v@.len() == 16,
                v@.subrange(0, i as int) + le_bytes(rest as nat, (n - i) as nat) == le_bytes(x as nat, n as nat),
                forall|j: int| i <= j < 16 ==> v@[j] == 0u8,
            decreases n - i,
        {
            let ghost before = v@;
            v[i] = (rest % 256) as u8;
            proof {
                let tail = le_bytes(rest as nat, (n - i) as nat);
                assert(tail == seq![(rest as nat % 256) as u8] + le_bytes(rest as nat / 256, (n - i - 1) as nat));
                assert(v@.subrange(0, i + 1) =~= before.subrange(0, i as int).push((rest % 256) as u8));
                assert(v@.subrange(0, i + 1) + le_bytes(rest as nat / 256, (n - i - 1) as nat)
                    =~= before.subrange(0, i as int) + tail);
            }
            rest = rest / 256;
            i = i + 1;
        }
        assert(v@ =~= le_bytes(x as nat, n as nat) + Seq::new((16 - n) as nat, |i: int| 0u8)) by {
            assert(v@.subrange(0, n as int) + le_bytes(rest as nat, 0) =~= v@.subrange(0, n as int));
        }
        v
    }

    /// A 16-bit UUID.
    pub fn uuid16(uuid: u16) -> (u: BtUuid)
        ensures
            u.spec_len() == 16,
            u.spec_value() == le_bytes(uuid as nat, 2) + Seq::new(14, |i: int| 0u8),
    {
        let v = Self::value_bytes(uuid as u128, 2);
        BtUuid { raw: RawBtUuid { len: 16, uuid: v } }
    }

    /// A 32-bit UUID.
    pub fn uuid32(uuid: u32) -> (u: BtUuid)
        ensures
            u.spec_len() == 32,
            u.spec_value() == le_bytes(uuid as nat, 4) + Seq::new(12, |i: int| 0u8),
    {
        let v = Self::value_bytes(uuid as u128, 4);
        BtUuid { raw: RawBtUuid { len: 32, uuid: v } }
    }

    /// A 128-bit UUID.
    pub fn uuid128(uuid: u128) -> (u: BtUuid)
        ensures
            u.spec_len() == 128,
            u.spec_value() == le_bytes(uuid as nat, 16),
    {
        let v = Self::value_bytes(uuid, 16);
        assert(le_bytes(uuid as nat, 16) + Seq::new(0, |i: int| 0u8) =~= le_bytes(uuid as nat, 16));
        BtUuid { raw: RawBtUuid { len: 128, uuid: v } }
    }

    /// The bytes that identify this UUID (see `spec_bytes`).
    pub fn as_bytes(&self) -> (b: Vec<u8>)
        ensures
            b@ == self.spec_bytes(),
            valid_uuid_len(self.spec_len()),
    {
        proof {
            use_type_invariant(self);
        }
        let n: usize = if self.raw.len == 16 {
            2
        } else if self.raw.len == 32 {
            4
        } else {
            16
        };
        let mut b: Vec<u8> = Vec::new();
        let mut i: usize = 0;
        while i < n
            invariant
                n == uuid_byte_count(self.spec_len()),
                n <= 16,
                self.raw.uuid@ == self.spec_value(),
                i <= n,
                b@ =~= self.spec_value().subrange(0, i as int),
            decreases n - i,
        {
            b.push(self.raw.uuid[i]);
            i = i + 1;
        }
        b
    }

    /// The UUID in its 128-bit form, in native (little-endian) byte order.
    pub fn as_uuid128_array(&self) -> (v: [u8; 16])
        ensures
            v@ == uuid128_bytes(*self),
    {
        proof {
            use_type_invariant(self);
        }
        if self.raw.len == 128 {
            self.raw.uuid
        } else {
            let u = self.raw.uuid;
            let v: [u8; 16] = [
                0xFBu8, 0x34u8, 0x9Bu8, 0x5Fu8, 0x80u8, 0x00u8, 0x00u8, 0x80u8, 0x00u8, 0x10u8, 0x00u8, 0x00u8,
                u[0], u[1], u[2], u[3],
            ];
            assert(v@ =~= uuid128_bytes(*self));
            v
        }
    }

    /// Whether two UUIDs identify the same thing: their identifying bytes
    /// are equal.
    pub fn same_as(&self, other: &BtUuid) -> (b: bool)
        ensures
            b == (self.spec_bytes() == other.spec_bytes()),
    {
        let x = self.as_bytes();
        let y = other.as_bytes();
        if x.len() != y.len() {
            assert(x@.len() != y@.len());
            return false;
        }
        let mut i: usize = 0;
        while i < x.len()
            invariant
                x@.len() == y@.len(),
                x@ == self.spec_bytes(),
                y@ == other.spec_bytes(),
                i <= x@.len(),
                forall|j: int| 0 <= j < i ==> x@[j] == y@[j],
            decreases x.len() - i,
        {
            if x[i] != y[i] {
                assert(x@[i as int] != y@[i as int]);
                return false;
            }
            i = i + 1;
        }
        assert(x@ =~= y@);
        true
    }
}

/// The first twelve bytes of the Bluetooth base UUID
/// `00000000-0000-1000-8000-00805F9B34FB`, in native (little-endian) byte
/// order; the last four hold a 16- or 32-bit UUID.
pub open spec fn base_uuid_prefix() -> Seq<u8> {
    seq![0xFBu8, 0x34u8, 0x9Bu8, 0x5Fu8, 0x80u8, 0x00u8, 0x00u8, 0x80u8, 0x00u8, 0x10u8, 0x00u8, 0x00u8]
}

/// A UUID's 128-bit form in native byte order: a 128-bit UUID's own bytes;
/// a 16- or 32-bit UUID placed in the base UUID (its value in bytes 12 to
/// 15, zero-padded).
pub open spec fn uuid128_bytes(u: BtUuid) -> Seq<u8> {
    if u.spec_len() == 128 {
        u.spec_value()
    } else {
        base_uuid_prefix() + u.spec_value().subrange(0, 4)
    }
}

/// Two 16-bit UUIDs identify the same thing exactly when their values are
/// equal.
pub proof fn lemma_uuid16_identity(a: u16, b: u16, ua: BtUuid, ub: BtUuid)
    requires
        ua.spec_len() == 16,
        ub.spec_len() == 16,
        ua.spec_value() == le_bytes(a as nat, 2) + Seq::new(14, |i: int| 0u8),
        ub.spec_value() == le_bytes(b as nat, 2) + Seq::new(14, |i: int| 0u8),
    ensures
        (ua.spec_bytes() == ub.spec_bytes()) <==> a == b,
{
    assert(pow256(2) == 65536) by {
        reveal_with_fuel(pow256, 3);
    }
    lemma_le_round_trip(a as nat, 2);
    lemma_le_round_trip(b as nat, 2);
    assert(ua.spec_bytes() =~= le_bytes(a as nat, 2));
    assert(ub.spec_bytes() =~= le_bytes(b as nat, 2));
}

// ---------------------------------------------------------------------------
// Callback slot
// ---------------------------------------------------------------------------

/// The slot a native event handler dispatches through: empty, or holding
/// the user's callback; an empty slot answers with its default result.
pub struct BtCallback<C, R> {
    callback: Option<C>,
    default_result: R,
}

impl<C, R: Clone> BtCallback<C, R> {
    /// The callback held, if any.
    pub closed spec fn held(self) -> Option<C> {
        self.callback
    }

    /// What an empty slot answers.
    pub closed spec fn spec_default(self) -> R {
        self.default_result
    }

    /// An empty slot answering `default_result`.
    pub fn new(default_result: R) -> (s: Self)
        ensures
            s.held() is None,
            s.spec_default() == default_result,
    {
        BtCallback { callback: None, default_result }
    }

    /// Whether a callback is held.
    pub fn is_set(&self) -> (b: bool)
        ensures
            b == self.held() is Some,
    {
        self.callback.is_some()
    }

    /// Puts `callback` into an empty slot; a slot that already holds one is
    /// left as it is and `ESP_ERR_INVALID_STATE` is returned.
    pub fn set(&mut self, callback: C) -> (r: Result<(), EspError>)
        ensures
            old(self).held() is None ==> r is Ok && final(self).held() == Some(callback),
            old(self).held() is Some ==> (r matches Err(e) && e.spec_code() == ESP_ERR_INVALID_STATE)
                && final(self).held() == old(self).held(),
            final(self).spec_default() == old(self).spec_default(),
    {
        if self.callback.is_some() {
            return Err(EspError::from_non_zero(ESP_ERR_INVALID_STATE));
        }
        self.callback = Some(callback);
        Ok(())
    }

    /// Empties a slot that holds a callback; an empty slot is left as it is
    /// and `ESP_ERR_INVALID_STATE` is returned.
    pub fn clear(&mut self) -> (r: Result<(), EspError>)
        ensures
            old(self).held() is Some ==> r is Ok && final(self).held() is None,
            old(self).held() is None ==> (r matches Err(e) && e.spec_code() == ESP_ERR_INVALID_STATE)
                && final(self).held() is None,
            final(self).spec_default() == old(self).spec_default(),
    {
        if self.callback.is_none() {
            return Err(EspError::from_non_zero(ESP_ERR_INVALID_STATE));
        }
        self.callback = None;
        Ok(())
    }

    /// Dispatches `arg`: to the callback when one is held, else answers a
    /// clone of the default result.
    pub fn call<A>(&self, arg: A) -> (r: R)
        where
            C: Fn(A) -> R,
        requires
            self.held() matches Some(c) ==> call_requires(c, (arg,)),
        ensures
            self.held() matches Some(c) ==> call_ensures(c, (arg,), r),
            self.held() is None ==> cloned(self.spec_default(), r),
    {
        match &self.callback {
            Some(c) => c(arg),
            None => self.default_result.clone(),
        }
    }
}

/// Setting a callback into an empty slot and clearing it again leaves an
/// empty slot with the same default, which accepts a new callback.
pub proof fn lemma_set_clear_restores<C, R: Clone>(s0: BtCallback<C, R>, s1: BtCallback<C, R>, s2: BtCallback<C, R>, c: C)
    requires
        s0.held() is None,
        s1.held() == Some(c),
        s1.spec_default() == s0.spec_default(),
        s2.held() is None,
        s2.spec_default() == s1.spec_default(),
    ensures
        s2.held() == s0.held(),
        s2.spec_default() == s0.spec_default(),
{
}

// ---------------------------------------------------------------------------
// Controller modes
// ---------------------------------------------------------------------------

/// Controller mode: off.
pub const ESP_BT_MODE_IDLE: u32 = 0;

/// Controller mode: Bluetooth Low Energy only.
pub const ESP_BT_MODE_BLE: u32 = 1;

/// Controller mode: Bluetooth Classic only.
pub const ESP_BT_MODE_CLASSIC_BT: u32 = 2;

/// Controller mode: both (dual mode).
pub const ESP_BT_MODE_BTDM: u32 = 3;

/// Whether the controller is built for dual mode (the SDK's default builds
/// it for one radio mode at a time).
pub const BTDM_CTRL_MODE_BTDM: bool = false;

/// The mode a driver of a given kind runs the controller in.
pub trait BtMode {
    /// The controller mode, as a specification.
    spec fn spec_mode() -> u32;

    /// The controller mode.
    fn mode() -> (m: u32)
        ensures
            m == Self::spec_mode();
}

/// Marker for drivers that offer Bluetooth Low Energy.
pub trait BleEnabled: BtMode {}

/// Marker for drivers that offer Bluetooth Classic.
pub trait BtClassicEnabled: BtMode {}

/// The Bluetooth Classic driver kind.
pub struct BtClassic;

/// The Bluetooth Low Energy driver kind.
pub struct Ble;

/// The dual-mode driver kind.
pub struct BtDual;

impl BtClassicEnabled for BtClassic {}

impl BleEnabled for Ble {}

impl BtClassicEnabled for BtDual {}

impl BleEnabled for BtDual {}

impl BtMode for BtClassic {
    open spec fn spec_mode() -> u32 {
        if BTDM_CTRL_MODE_BTDM { ESP_BT_MODE_BTDM } else { ESP_BT_MODE_CLASSIC_BT }
    }

    fn mode() -> (m: u32) {
        if BTDM_CTRL_MODE_BTDM { ESP_BT_MODE_BTDM } else { ESP_BT_MODE_CLASSIC_BT }
    }
}

impl BtMode for Ble {
    open spec fn spec_mode() -> u32 {
        if BTDM_CTRL_MODE_BTDM { ESP_BT_MODE_BTDM } else { ESP_BT_MODE_BLE }
    }

    fn mode() -> (m: u32) {
        if BTDM_CTRL_MODE_BTDM { ESP_BT_MODE_BTDM } else { ESP_BT_MODE_BLE }
    }
}

impl BtMode for BtDual {
    open spec fn spec_mode() -> u32 {
        ESP_BT_MODE_BTDM
    }

    fn mode() -> (m: u32) {
        ESP_BT_MODE_BTDM
    }
}

// ---------------------------------------------------------------------------
// Controller memory
// ---------------------------------------------------------------------------

/// Whether the controller is built for Bluetooth Classic only.
pub const BTDM_CTRL_MODE_BR_EDR_ONLY: bool = false;

/// Whether the controller is built for Bluetooth Low Energy only.
pub const BTDM_CTRL_MODE_BLE_ONLY: bool = true;

/// Whether the memory of unused controller parts has been handed back to the
/// heap; it can be handed back once only.
pub struct BtMemory {
    freed: bool,
}

/// The controller memory `reduce` releases: that of the mode the build does
/// not use, if any. A Classic-only build releases the BLE part, a BLE-only
/// build (this one) the Classic part, and a dual-mode build nothing.
pub open spec fn reduced_modes() -> Seq<u32> {
    if BTDM_CTRL_MODE_BR_EDR_ONLY {
        seq![ESP_BT_MODE_BLE]
    } else if BTDM_CTRL_MODE_BLE_ONLY {
        seq![ESP_BT_MODE_CLASSIC_BT]
    } else {
        Seq::empty()
    }
}

impl BtMemory {
    /// Whether the memory has been released.
    pub closed spec fn is_freed(self) -> bool {
        self.freed
    }

    /// Nothing released yet.
    pub fn new() -> (m: Self)
        ensures
            !m.is_freed(),
    {
        BtMemory { freed: false }
    }

    /// Releases the memory of the controller parts the build does not use,
    /// through `release` (the native `esp_bt_mem_release`).
    ///
    /// Refused with `ESP_ERR_INVALID_STATE` once memory has been released; a
    /// failed release is returned and leaves the state as it was.
    pub fn reduce<F: Fn(u32) -> i32>(&mut self, release: &F) -> (r: Result<(), EspError>)
        requires
            forall|m: u32| call_requires(*release, (m,)),
        ensures
            old(self).is_freed() ==> (r matches Err(e) && e.spec_code() == ESP_ERR_INVALID_STATE)
                && final(self).is_freed(),
            !old(self).is_freed() ==> exists|codes: Seq<i32>| #[trigger] ran_until_failure(reduced_modes(), codes, *release)
                && match r {
                    Ok(()) => run_result(reduced_modes().len(), codes) == Ok::<(), i32>(()) && final(self).is_freed(),
                    Err(e) => run_result(reduced_modes().len(), codes) == Err::<(), i32>(e.spec_code()) && !final(self).is_freed(),
                },
    {
        if self.freed {
            return Err(EspError::from_non_zero(ESP_ERR_INVALID_STATE));
        }
        let mut modes: Vec<u32> = Vec::new();
        if BTDM_CTRL_MODE_BR_EDR_ONLY {
            modes.push(ESP_BT_MODE_BLE);
        } else if BTDM_CTRL_MODE_BLE_ONLY {
            modes.push(ESP_BT_MODE_CLASSIC_BT);
        }
        assert(modes@ =~= reduced_modes());
        let r = run_steps(&modes, release);
        if r.is_ok() {
            self.freed = true;
        }
        r
    }

    /// Releases the memory of the whole controller (both modes) through
    /// `release`; refused with `ESP_ERR_INVALID_STATE` once memory has been
    /// released. A failed release is returned and leaves the state as it was.
    pub fn free<F: Fn(u32) -> i32>(&mut self, release: &F) -> (r: Result<(), EspError>)
        requires
            call_requires(*release, (ESP_BT_MODE_BTDM,)),
        ensures
            old(self).is_freed() ==> (r matches Err(e) && e.spec_code() == ESP_ERR_INVALID_STATE)
                && final(self).is_freed(),
            !old(self).is_freed() ==> exists|code: i32| #[trigger] call_ensures(*release, (ESP_BT_MODE_BTDM,), code)
                && (code == ESP_OK ==> r is Ok && final(self).is_freed())
                && (code != ESP_OK ==> (r matches Err(e) && e.spec_code() == code) && !final(self).is_freed()),
    {
        if self.freed {
            return Err(EspError::from_non_zero(ESP_ERR_INVALID_STATE));
        }
        let code = release(ESP_BT_MODE_BTDM);
        if code != ESP_OK {
            return Err(EspError::from_non_zero(code));
        }
        self.freed = true;
        Ok(())
    }
}

// ---------------------------------------------------------------------------
// The driver
// ---------------------------------------------------------------------------

/// One native call of the driver's bring-up.
#[derive(Debug, Clone, Copy, PartialEq, Eq, Structural)]
pub enum BtInitStep {
    /// Initialise the controller for the given mode.
    ControllerInit(u32),
    /// Enable the controller in the given mode.
    ControllerEnable(u32),
    /// Initialise the Bluedroid host.
    BluedroidInit,
    /// Enable the Bluedroid host.
    BluedroidEnable,
}

/// The bring-up of a driver whose controller runs in `mode`, in order.
pub open spec fn bt_init_steps(mode: u32) -> Seq<BtInitStep> {
    seq![
        BtInitStep::ControllerInit(mode),
        BtInitStep::ControllerEnable(mode),
        BtInitStep::BluedroidInit,
        BtInitStep::BluedroidEnable,
    ]
}

/// A brought-up Bluetooth driver of kind `M`.
pub struct BtDriver<M: BtMode> {
    nvs_enabled: bool,
    mode: std::marker::PhantomData<M>,
}

impl<M: BtMode> BtDriver<M> {
    /// Whether the driver keeps bonding data in non-volatile storage.
    pub closed spec fn spec_nvs_enabled(self) -> bool {
        self.nvs_enabled
    }

    /// Brings the driver up: runs the steps of `bt_init_steps` for the
    /// kind's mode through `run`, stopping at the first failure, whose
    /// status is returned.
    pub fn new<F: Fn(BtInitStep) -> i32>(nvs_enabled: bool, run: &F) -> (r: Result<BtDriver<M>, EspError>)
        requires
            forall|s: BtInitStep| call_requires(*run, (s,)),
        ensures
            exists|codes: Seq<i32>| #[trigger] ran_until_failure(bt_init_steps(M::spec_mode()), codes, *run)
                && match r {
                    Ok(d) => run_result(4, codes) == Ok::<(), i32>(()) && d.spec_nvs_enabled() == nvs_enabled,
                    Err(e) => run_result(4, codes) == Err::<(), i32>(e.spec_code()),
                },
    {
        let r = Self::init(run);
        match r {
            Ok(()) => Ok(BtDriver { nvs_enabled, mode: std::marker::PhantomData }),
            Err(e) => Err(e),
        }
    }

    /// Sets the name the device is seen under: refused with
    /// `ESP_ERR_INVALID_ARG`, before any native call, when the name holds a
    /// NUL character (it cannot be handed to C); otherwise the name is
    /// handed to `set` (the native call) and its status returned.
    pub fn set_device_name<F: Fn(&str) -> i32>(&self, device_name: &str, set: &F) -> (r: Result<(), EspError>)
        requires
            call_requires(*set, (device_name,)),
        ensures
            has_nul(device_name@) ==> (r matches Err(e) && e.spec_code() == ESP_ERR_INVALID_ARG),
            !has_nul(device_name@) ==> exists|code: i32| #[trigger] call_ensures(*set, (device_name,), code)
                && (code == ESP_OK ==> r is Ok)
                && (code != ESP_OK ==> (r matches Err(e) && e.spec_code() == code)),
    {
        if !is_c_compatible(device_name) {
            return Err(EspError::from_non_zero(ESP_ERR_INVALID_ARG));
        }
        let code = set(device_name);
        if code != ESP_OK {
            return Err(EspError::from_non_zero(code));
        }
        Ok(())
    }

    /// Runs the bring-up steps for the kind's mode.
    fn init<F: Fn(BtInitStep) -> i32>(run: &F) -> (r: Result<(), EspError>)
        requires
            forall|s: BtInitStep| call_requires(*run, (s,)),
        ensures
            exists|codes: Seq<i32>| #[trigger] ran_until_failure(bt_init_steps(M::spec_mode()), codes, *run)
                && match r {
                    Ok(()) => run_result(4, codes) == Ok::<(), i32>(()),
                    Err(e) => run_result(4, codes) == Err::<(), i32>(e.spec_code()),
                },
    {
        let mode = M::mode();
        let steps: Vec<BtInitStep> = vec![
            BtInitStep::ControllerInit(mode),
            BtInitStep::ControllerEnable(mode),
            BtInitStep::BluedroidInit,
            BtInitStep::BluedroidEnable,
        ];
        assert(steps@ =~= bt_init_steps(M::spec_mode()));
        run_steps(&steps, run)
    }
}

} // verus!
