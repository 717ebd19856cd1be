//! The GATT server's own state and decisions: its configuration before start,
//! the clients connected, the bring-up of the BLE stack, the routing of
//! server events, characteristic values, and whom a value change is sent to.

use vstd::prelude::*;
use vstd::string::StringSliceAdditionalSpecFns;

use crate::ble::{
    cccd_flags, permission_bits, property_bits, AttributePermissions, CharacteristicProperties, Connection, CCCD_UUID16,
};
use crate::bt::{uuid128_bytes, BtUuid};
use crate::error::EspError;
use crate::gap::{AdvData, ESP_BLE_ADV_FLAG_BREDR_NOT_SPT, ESP_BLE_ADV_FLAG_GEN_DISC};
use crate::gatt::{AttrEntry, AttrUuid, CharacteristicEntry, ProfileEntry, ServiceEntry};
use crate::sequence::{ran_until_failure, run_result, run_steps};
use crate::text::push_str;

verus! {

// ---------------------------------------------------------------------------
// First matches
// ---------------------------------------------------------------------------

/// `i` is the first position of `s` whose element satisfies `p`.
pub open spec fn is_first<T>(s: Seq<T>, p: spec_fn(T) -> bool, i: int) -> bool {
    &&& 0 <= i < s.len()
    &&& p(s[i])
    &&& forall|j: int| 0 <= j < i ==> !p(#[trigger] s[j])
}

/// The first position of `s` whose element satisfies `p`, if any.
pub open spec fn first_match<T>(s: Seq<T>, p: spec_fn(T) -> bool) -> Option<int> {
    if exists|i: int| is_first(s, p, i) {
        Some(choose|i: int| is_first(s, p, i))
    } else {
        None
    }
}

/// The first position is unique.
pub proof fn lemma_first_unique<T>(s: Seq<T>, p: spec_fn(T) -> bool, i: int)
    requires
        is_first(s, p, i),
    ensures
        first_match(s, p) == Some(i),
{
    let k = choose|k: int| is_first(s, p, k);
    assert(is_first(s, p, k));
    if k < i {
        assert(!p(s[k]));
    } else if i < k {
        assert(!p(s[i]));
    }
}

/// No position satisfies `p`.
pub proof fn lemma_first_none<T>(s: Seq<T>, p: spec_fn(T) -> bool)
    requires
        forall|j: int| 0 <= j < s.len() ==> !p(#[trigger] s[j]),
    ensures
        first_match(s, p) is None,
{
    if exists|i: int| is_first(s, p, i) {
        let k = choose|i: int| is_first(s, p, i);
        assert(p(s[k]));
    }
}

/// Whether a profile serves the interface `iface`.
pub open spec fn serves(iface: u8) -> spec_fn(ProfileEntry) -> bool {
    |p: ProfileEntry| p.interface == Some(iface)
}

/// Whether a profile registers with the application identifier `id`.
pub open spec fn has_identifier(id: u16) -> spec_fn(ProfileEntry) -> bool {
    |p: ProfileEntry| p.identifier == id
}

/// Whether a service has the handle `h`.
pub open spec fn service_at(h: u16) -> spec_fn(ServiceEntry) -> bool {
    |s: ServiceEntry| s.handle == Some(h)
}

/// Whether a characteristic's value has the handle `h`.
pub open spec fn characteristic_at(h: u16) -> spec_fn(CharacteristicEntry) -> bool {
    |c: CharacteristicEntry| c.attr.handle == Some(h)
}

/// Whether a descriptor is a CCCD.
pub open spec fn is_cccd() -> spec_fn(AttrEntry) -> bool {
    |d: AttrEntry| d.uuid == AttrUuid::Uuid16(CCCD_UUID16)
}

/// The first profile serving `iface`.
pub fn find_profile(profiles: &Vec<ProfileEntry>, iface: u8) -> (r: Option<usize>)
    ensures
        match r {
            Some(i) => first_match(profiles@, serves(iface)) == Some(i as int),
            None => first_match(profiles@, serves(iface)) is None,
        },
{
    let mut i: usize = 0;
    while i < profiles.len()
        invariant
            i <= profiles@.len(),
            forall|j: int| 0 <= j < i ==> !serves(iface)(#[trigger] profiles@[j]),
        decreases profiles.len() - i,
    {
        if profiles[i].interface == Some(iface) {
            proof {
                lemma_first_unique(profiles@, serves(iface), i as int);
            }
            return Some(i);
        }
        i = i + 1;
    }
    proof {
        lemma_first_none(profiles@, serves(iface));
    }
    None
}

/// The first service with handle `h`.
pub fn find_service(services: &Vec<ServiceEntry>, h: u16) -> (r: Option<usize>)
    ensures
        match r {
            Some(i) => first_match(services@, service_at(h)) == Some(i as int),
            None => first_match(services@, service_at(h)) is None,
        },
{
    let mut i: usize = 0;
    while i < services.len()
        invariant
            i <= services@.len(),
            forall|j: int| 0 <= j < i ==> !service_at(h)(#[trigger] services@[j]),
        decreases services.len() - i,
    {
        if services[i].handle == Some(h) {
            proof {
                lemma_first_unique(services@, service_at(h), i as int);
            }
            return Some(i);
        }
        i = i + 1;
    }
    proof {
        lemma_first_none(services@, service_at(h));
    }
    None
}

/// The first characteristic whose value has handle `h`.
pub fn find_characteristic(characteristics: &Vec<CharacteristicEntry>, h: u16) -> (r: Option<usize>)
    ensures
        match r {
            Some(i) => first_match(characteristics@, characteristic_at(h)) == Some(i as int),
            None => first_match(characteristics@, characteristic_at(h)) is None,
        },
{
    let mut i: usize = 0;
    while i < characteristics.len()
        invariant
            i <= characteristics@.len(),
            forall|j: int| 0 <= j < i ==> !characteristic_at(h)(#[trigger] characteristics@[j]),
        decreases characteristics.len() - i,
    {
        if characteristics[i].attr.handle == Some(h) {
            proof {
                lemma_first_unique(characteristics@, characteristic_at(h), i as int);
            }
            return Some(i);
        }
        i = i + 1;
    }
    proof {
        lemma_first_none(characteristics@, characteristic_at(h));
    }
    None
}

/// The first CCCD among `descriptors`.
pub fn find_cccd(descriptors: &Vec<AttrEntry>) -> (r: Option<usize>)
    ensures
        match r {
            Some(i) => first_match(descriptors@, is_cccd()) == Some(i as int),
            None => first_match(descriptors@, is_cccd()) is None,
        },
{
    let mut i: usize = 0;
    while i < descriptors.len()
        invariant
            i <= descriptors@.len(),
            forall|j: int| 0 <= j < i ==> !is_cccd()(#[trigger] descriptors@[j]),
        decreases descriptors.len() - i,
    {
        if descriptors[i].uuid == AttrUuid::Uuid16(CCCD_UUID16) {
            proof {
                lemma_first_unique(descriptors@, is_cccd(), i as int);
            }
            return Some(i);
        }
        i = i + 1;
    }
    proof {
        lemma_first_none(descriptors@, is_cccd());
    }
    None
}

// ---------------------------------------------------------------------------
// Value changes
// ---------------------------------------------------------------------------

/// A value change sent to one client: an indication or a notification.
#[derive(Debug, Clone, Copy, PartialEq, Eq, Structural)]
pub struct Notice {
    pub conn_id: u16,
    pub indicate: bool,
}

/// What a client whose CCCD holds `value` is sent for a characteristic: an
/// indication when the characteristic indicates and the client asked for
/// them, else a notification when it notifies and the client asked for
/// them, else nothing.
pub open spec fn notice_for(ch: CharacteristicEntry, c: Connection, value: Vec<u8>) -> Seq<Notice> {
    let flags = cccd_flags(value@);
    if ch.indicate && flags.1 {
        seq![Notice { conn_id: c.id, indicate: true }]
    } else if ch.notify && flags.0 {
        seq![Notice { conn_id: c.id, indicate: false }]
    } else {
        Seq::empty()
    }
}

/// What the first `n` clients are sent, their CCCDs holding `values`.
pub open spec fn notices_for(ch: CharacteristicEntry, conns: Seq<Connection>, values: Seq<Vec<u8>>, n: nat) -> Seq<Notice>
    decreases n,
{
    if n == 0 {
        Seq::empty()
    } else {
        notices_for(ch, conns, values, (n - 1) as nat) + notice_for(ch, conns[n - 1], values[n - 1])
    }
}

proof fn lemma_notices_agree(ch: CharacteristicEntry, conns: Seq<Connection>, v1: Seq<Vec<u8>>, v2: Seq<Vec<u8>>, n: nat)
    requires
        n <= v1.len(),
        n <= v2.len(),
        forall|j: int| 0 <= j < n ==> v1[j] == v2[j],
    ensures
        notices_for(ch, conns, v1, n) == notices_for(ch, conns, v2, n),
    decreases n,
{
    if n > 0 {
        lemma_notices_agree(ch, conns, v1, v2, (n - 1) as nat);
    }
}

/// Whether a client whose CCCD holds `value` takes value changes of `ch`:
/// the characteristic indicates and bit 1 of the CCCD's first byte asks for
/// indications, or it notifies and bit 0 asks for notifications.
pub open spec fn subscribed(ch: CharacteristicEntry, value: Vec<u8>) -> bool {
    (ch.indicate && value@[0] & 2u8 == 2u8) || (ch.notify && value@[0] & 1u8 == 1u8)
}

/// Whether such a client is sent indications (rather than notifications):
/// when the characteristic indicates and the client asked for indications.
pub open spec fn indicated(ch: CharacteristicEntry, value: Vec<u8>) -> bool {
    ch.indicate && value@[0] & 2u8 == 2u8
}

/// How many of the first `n` clients, their CCCDs holding `values`, take
/// value changes of `ch`.
pub open spec fn subscribed_count(ch: CharacteristicEntry, values: Seq<Vec<u8>>, n: nat) -> nat
    decreases n,
{
    if n == 0 {
        0
    } else {
        subscribed_count(ch, values, (n - 1) as nat) + if subscribed(ch, values[n - 1]) { 1nat } else { 0nat }
    }
}

/// The notice client `k` of `conns`, its CCCD holding `values[k]`, is sent
/// when it is subscribed: under its connection id, an indication when it
/// asked for indications of an indicating characteristic, else a
/// notification.
pub open spec fn notice_to(ch: CharacteristicEntry, conns: Seq<Connection>, values: Seq<Vec<u8>>, k: int) -> Notice {
    Notice { conn_id: conns[k].id, indicate: indicated(ch, values[k]) }
}

/// Whether `x` is the notice of one of the first `n` clients that is
/// subscribed (see `notice_to`).
pub open spec fn from_subscriber(ch: CharacteristicEntry, conns: Seq<Connection>, values: Seq<Vec<u8>>, n: nat, x: Notice) -> bool {
    exists|k: int| 0 <= k < n && subscribed(ch, values[k]) && x == #[trigger] notice_to(ch, conns, values, k)
}

/// A value change reaches every subscribed client once and no one else:
/// among the first `n` clients, their CCCDs holding `values`, there are as
/// many notices as subscribed clients; each subscribed client gets its
/// notice (see `notice_to`); and every notice is that of a subscribed
/// client.
pub proof fn lemma_notices_reach_subscribers(ch: CharacteristicEntry, conns: Seq<Connection>, values: Seq<Vec<u8>>, n: nat)
    requires
        n <= conns.len(),
        n <= values.len(),
    ensures
        notices_for(ch, conns, values, n).len() == subscribed_count(ch, values, n),
        forall|k: int| 0 <= k < n && subscribed(ch, values[k]) ==> exists|m: int|
            0 <= m < notices_for(ch, conns, values, n).len() && notices_for(ch, conns, values, n)[m]
                == #[trigger] notice_to(ch, conns, values, k),
        forall|m: int| 0 <= m < notices_for(ch, conns, values, n).len() ==> from_subscriber(
            ch,
            conns,
            values,
            n,
            #[trigger] notices_for(ch, conns, values, n)[m],
        ),
    decreases n,
{
    if n > 0 {
        let j = n - 1;
        lemma_notices_reach_subscribers(ch, conns, values, j as nat);
        let prev = notices_for(ch, conns, values, j as nat);
        let step = notice_for(ch, conns[j], values[j]);
        let all = notices_for(ch, conns, values, n);
        assert(all == prev + step);
        let nt = notice_to(ch, conns, values, j);
        if subscribed(ch, values[j]) {
            assert(step == seq![nt]);
        } else {
            assert(step.len() == 0);
        }
        assert forall|k: int| 0 <= k < n && subscribed(ch, values[k]) implies exists|m: int|
            0 <= m < notices_for(ch, conns, values, n).len() && notices_for(ch, conns, values, n)[m]
                == #[trigger] notice_to(ch, conns, values, k) by {
            if k < j {
                let m = choose|m: int| 0 <= m < prev.len() && prev[m] == #[trigger] notice_to(ch, conns, values, k);
                assert(all[m] == prev[m]);
                assert(0 <= m < all.len() && all[m] == notice_to(ch, conns, values, k));
            } else {
                assert(all[prev.len() as int] == nt);
                assert(0 <= prev.len() < all.len() && all[prev.len() as int] == notice_to(ch, conns, values, k));
            }
        }
        assert forall|m: int| 0 <= m < notices_for(ch, conns, values, n).len() implies from_subscriber(
            ch,
            conns,
            values,
            n,
            #[trigger] notices_for(ch, conns, values, n)[m],
        ) by {
            if m < prev.len() {
                assert(all[m] == prev[m]);
                assert(from_subscriber(ch, conns, values, j as nat, prev[m]));
                let k = choose|k: int| 0 <= k < j && subscribed(ch, values[k]) && prev[m]
                    == #[trigger] notice_to(ch, conns, values, k);
                assert(0 <= k < n && subscribed(ch, values[k]) && all[m] == notice_to(ch, conns, values, k));
            } else {
                assert(all[m] == nt);
                assert(0 <= j < n && subscribed(ch, values[j as int]) && all[m] == notice_to(ch, conns, values, j as int));
            }
        }
    } else {
        assert(notices_for(ch, conns, values, n).len() == 0);
    }
}

/// Where a set-attribute-value event lands: the profile serving the
/// interface, the service with the service handle in it, and the
/// characteristic with the attribute handle in that.
pub open spec fn attr_target(profiles: Seq<ProfileEntry>, iface: u8, srvc_handle: u16, attr_handle: u16) -> Option<(int, int, int)> {
    match first_match(profiles, serves(iface)) {
        None => None,
        Some(p) => match first_match(profiles[p].services@, service_at(srvc_handle)) {
            None => None,
            Some(s) => match first_match(profiles[p].services@[s].characteristics@, characteristic_at(attr_handle)) {
                None => None,
                Some(c) => Some((p, s, c)),
            },
        },
    }
}

/// The characteristic at a target.
pub open spec fn target_characteristic(profiles: Seq<ProfileEntry>, t: (int, int, int)) -> CharacteristicEntry {
    profiles[t.0].services@[t.1].characteristics@[t.2]
}

/// The handle of a characteristic's first CCCD, when it has one with a
/// handle.
pub open spec fn cccd_handle_of(ch: CharacteristicEntry) -> Option<u16> {
    match first_match(ch.descriptors@, is_cccd()) {
        Some(k) => ch.descriptors@[k].handle,
        None => None,
    }
}

/// Whether the CCCD of a characteristic is answered by the application
/// (its read callback is installed).
pub open spec fn cccd_by_app(ch: CharacteristicEntry) -> bool {
    match first_match(ch.descriptors@, is_cccd()) {
        Some(k) => ch.descriptors@[k].response_by_app,
        None => false,
    }
}

// ---------------------------------------------------------------------------
// The bring-up of the BLE stack
// ---------------------------------------------------------------------------

/// One native call of the BLE stack's bring-up.
#[derive(Debug, Clone, Copy, PartialEq, Eq, Structural)]
pub enum BleStackStep {
    /// Hand back the Bluetooth Classic controller memory.
    ReleaseClassicMemory,
    /// Initialise the controller.
    ControllerInit,
    /// Enable the controller in BLE mode.
    ControllerEnableBle,
    /// Initialise the Bluedroid host.
    BluedroidInit,
    /// Enable the Bluedroid host.
    BluedroidEnable,
    /// Register the server's GATT event callback.
    RegisterGattsCallback,
    /// Register the server's GAP event callback.
    RegisterGapCallback,
}

/// The bring-up of the BLE stack, in order.
pub open spec fn ble_stack_steps() -> Seq<BleStackStep> {
    seq![
        BleStackStep::ReleaseClassicMemory,
        BleStackStep::ControllerInit,
        BleStackStep::ControllerEnableBle,
        BleStackStep::BluedroidInit,
        BleStackStep::BluedroidEnable,
        BleStackStep::RegisterGattsCallback,
        BleStackStep::RegisterGapCallback,
    ]
}

/// Brings the BLE stack up: runs the steps of `ble_stack_steps` through
/// `run`, in order. A failing step ends the bring-up: no later step is run
/// and its status is returned. A stack left half brought up cannot serve,
/// so the caller treats that error as fatal and aborts; the library itself
/// does not panic.
pub fn initialise_ble_stack<F: Fn(BleStackStep) -> i32>(run: &F) -> (r: Result<(), EspError>)
    requires
        forall|s: BleStackStep| call_requires(*run, (s,)),
    ensures
        exists|codes: Seq<i32>| #[trigger] ran_until_failure(ble_stack_steps(), codes, *run)
            && match r {
                Ok(()) => run_result(7, codes) == Ok::<(), i32>(()),
                Err(e) => run_result(7, codes) == Err::<(), i32>(e.spec_code()),
            },
{
    let steps: Vec<BleStackStep> = vec![
        BleStackStep::ReleaseClassicMemory,
        BleStackStep::ControllerInit,
        BleStackStep::ControllerEnableBle,
        BleStackStep::BluedroidInit,
        BleStackStep::BluedroidEnable,
        BleStackStep::RegisterGattsCallback,
        BleStackStep::RegisterGapCallback,
    ];
    assert(steps@ =~= ble_stack_steps());
    run_steps(&steps, run)
}

// ---------------------------------------------------------------------------
// Server events
// ---------------------------------------------------------------------------

/// Native GATT server event: an application registered.
pub const ESP_GATTS_REG_EVT: u32 = 0;
/// Native GATT server event: a client read.
pub const ESP_GATTS_READ_EVT: u32 = 1;
/// Native GATT server event: a client wrote.
pub const ESP_GATTS_WRITE_EVT: u32 = 2;
/// Native GATT server event: the MTU changed.
pub const ESP_GATTS_MTU_EVT: u32 = 4;
/// Native GATT server event: a write was confirmed by the client.
pub const ESP_GATTS_CONF_EVT: u32 = 5;
/// Native GATT server event: a service was created.
pub const ESP_GATTS_CREATE_EVT: u32 = 7;
/// Native GATT server event: a characteristic was added.
pub const ESP_GATTS_ADD_CHAR_EVT: u32 = 9;
/// Native GATT server event: a descriptor was added.
pub const ESP_GATTS_ADD_CHAR_DESCR_EVT: u32 = 10;
/// Native GATT server event: a service was started.
pub const ESP_GATTS_START_EVT: u32 = 12;
/// Native GATT server event: a client connected.
pub const ESP_GATTS_CONNECT_EVT: u32 = 14;
/// Native GATT server event: a client disconnected.
pub const ESP_GATTS_DISCONNECT_EVT: u32 = 15;
/// Native GATT server event: a response was sent.
pub const ESP_GATTS_RESPONSE_EVT: u32 = 21;
/// Native GATT server event: an attribute value was set.
pub const ESP_GATTS_SET_ATTR_VAL_EVT: u32 = 23;

/// Who handles a GATT server event.
#[derive(Debug, Clone, Copy, PartialEq, Eq, Structural)]
pub enum GattsRoute {
    /// The server alone.
    Server,
    /// The server, then the profiles serving the event's interface.
    ServerThenProfiles,
    /// The profiles serving the event's interface.
    Profiles,
}

/// Who handles a GATT server event: connections, MTU changes, responses and
/// value settings are the server's own; registrations go to the server and
/// then to the profiles; everything else to the profiles.
pub open spec fn gatts_route(event: u32) -> GattsRoute {
    if event == ESP_GATTS_CONNECT_EVT || event == ESP_GATTS_DISCONNECT_EVT || event == ESP_GATTS_MTU_EVT
        || event == ESP_GATTS_RESPONSE_EVT || event == ESP_GATTS_SET_ATTR_VAL_EVT {
        GattsRoute::Server
    } else if event == ESP_GATTS_REG_EVT {
        GattsRoute::ServerThenProfiles
    } else {
        GattsRoute::Profiles
    }
}

/// Who handles a GATT server event (see `gatts_route`).
pub fn route_gatts_event(event: u32) -> (r: GattsRoute)
    ensures
        r == gatts_route(event),
        event == ESP_GATTS_CONNECT_EVT || event == ESP_GATTS_DISCONNECT_EVT ==> r == GattsRoute::Server,
{
    if event == ESP_GATTS_CONNECT_EVT || event == ESP_GATTS_DISCONNECT_EVT || event == ESP_GATTS_MTU_EVT
        || event == ESP_GATTS_RESPONSE_EVT || event == ESP_GATTS_SET_ATTR_VAL_EVT {
        GattsRoute::Server
    } else if event == ESP_GATTS_REG_EVT {
        GattsRoute::ServerThenProfiles
    } else {
        GattsRoute::Profiles
    }
}

/// Which events the server keeps for itself: a client connecting (14) or
/// disconnecting (15), an MTU change (4), a response sent (21) and a value
/// set (23) are handled by the server alone, so that it keeps its list of
/// clients and answers value changes; a registration (0) is handled by the
/// server and then by the profiles; every other event goes to the profiles
/// alone. Connecting and disconnecting are routed alike.
pub proof fn lemma_gatts_event_routes(event: u32)
    ensures
        event == 14 || event == 15 || event == 4 || event == 21 || event == 23 ==> gatts_route(event)
            == GattsRoute::Server,
        event == 0 ==> gatts_route(event) == GattsRoute::ServerThenProfiles,
        !(event == 0 || event == 14 || event == 15 || event == 4 || event == 21 || event == 23) ==> gatts_route(
            event,
        ) == GattsRoute::Profiles,
        gatts_route(ESP_GATTS_DISCONNECT_EVT) == gatts_route(ESP_GATTS_CONNECT_EVT),
        ESP_GATTS_CONNECT_EVT == 14 && ESP_GATTS_DISCONNECT_EVT == 15,
{
}

/// What a profile does with a GATT server event addressed to it.
#[derive(Debug, Clone, Copy, PartialEq, Eq, Structural)]
pub enum ProfileEvent {
    /// Its application was registered.
    Registered,
    /// One of its services was created.
    ServiceCreated,
    /// One of its services was started.
    ServiceStarted,
    /// One of its characteristics was added.
    CharacteristicAdded,
    /// One of its descriptors was added.
    DescriptorAdded,
    /// A client wrote one of its attributes.
    Written,
    /// A client read one of its attributes.
    Read,
    /// A client confirmed an indication.
    Confirmed,
    /// An event that profiles do not handle.
    Unhandled,
}

/// The profile's handling of each native GATT server event code.
pub open spec fn profile_event_spec(event: u32) -> ProfileEvent {
    if event == ESP_GATTS_REG_EVT {
        ProfileEvent::Registered
    } else if event == ESP_GATTS_CREATE_EVT {
        ProfileEvent::ServiceCreated
    } else if event == ESP_GATTS_START_EVT {
        ProfileEvent::ServiceStarted
    } else if event == ESP_GATTS_ADD_CHAR_EVT {
        ProfileEvent::CharacteristicAdded
    } else if event == ESP_GATTS_ADD_CHAR_DESCR_EVT {
        ProfileEvent::DescriptorAdded
    } else if event == ESP_GATTS_WRITE_EVT {
        ProfileEvent::Written
    } else if event == ESP_GATTS_READ_EVT {
        ProfileEvent::Read
    } else if event == ESP_GATTS_CONF_EVT {
        ProfileEvent::Confirmed
    } else {
        ProfileEvent::Unhandled
    }
}

/// How a profile handles the native GATT server event `event`.
pub fn profile_event(event: u32) -> (r: ProfileEvent)
    ensures
        r == profile_event_spec(event),
{
    if event == ESP_GATTS_REG_EVT {
        ProfileEvent::Registered
    } else if event == ESP_GATTS_CREATE_EVT {
        ProfileEvent::ServiceCreated
    } else if event == ESP_GATTS_START_EVT {
        ProfileEvent::ServiceStarted
    } else if event == ESP_GATTS_ADD_CHAR_EVT {
        ProfileEvent::CharacteristicAdded
    } else if event == ESP_GATTS_ADD_CHAR_DESCR_EVT {
        ProfileEvent::DescriptorAdded
    } else if event == ESP_GATTS_WRITE_EVT {
        ProfileEvent::Written
    } else if event == ESP_GATTS_READ_EVT {
        ProfileEvent::Read
    } else if event == ESP_GATTS_CONF_EVT {
        ProfileEvent::Confirmed
    } else {
        ProfileEvent::Unhandled
    }
}

// ---------------------------------------------------------------------------
// The server
// ---------------------------------------------------------------------------

/// Appearance code of a generic, unknown device.
pub const APPEARANCE_GENERIC_UNKNOWN: u16 = 0;

/// Advertising type: connectable undirected.
pub const ADV_TYPE_IND: u32 = 0;
/// Own address type: resolvable private address, else public.
pub const BLE_ADDR_TYPE_RPA_PUBLIC: u32 = 2;
/// Advertising on all three channels.
pub const ADV_CHNL_ALL: u32 = 7;
/// Filter policy: scans and connections from anyone.
pub const ADV_FILTER_ALLOW_SCAN_ANY_CON_ANY: u32 = 0;

/// The advertising parameters handed to the stack (`esp_ble_adv_params_t`).
#[derive(Debug, Clone, Copy, PartialEq, Eq, Structural)]
pub struct AdvParams {
    pub adv_int_min: u16,
    pub adv_int_max: u16,
    pub adv_type: u32,
    pub own_addr_type: u32,
    pub channel_map: u32,
    pub adv_filter_policy: u32,
}

/// The server's default advertising parameters: an interval of 20 to 40 ms
/// (0x20 to 0x40 units of 0.625 ms), connectable undirected, from a
/// resolvable private address, on all channels, open to anyone.
pub open spec fn default_adv_params() -> AdvParams {
    AdvParams {
        adv_int_min: 0x20,
        adv_int_max: 0x40,
        adv_type: ADV_TYPE_IND,
        own_addr_type: BLE_ADDR_TYPE_RPA_PUBLIC,
        channel_map: ADV_CHNL_ALL,
        adv_filter_policy: ADV_FILTER_ALLOW_SCAN_ANY_CON_ANY,
    }
}

/// The server's advertisement (`scan_rsp` false) or scan response (true):
/// the name and transmit power only in the advertisement, a 7.5 to 20 ms
/// connection interval, the appearance, general discoverability without
/// classic Bluetooth, no manufacturer or service data, and the given
/// length of advertised service UUID.
pub open spec fn server_adv_data(scan_rsp: bool, appearance: u16, service_uuid_len: u16) -> AdvData {
    AdvData {
        set_scan_rsp: scan_rsp,
        include_name: !scan_rsp,
        include_txpower: !scan_rsp,
        min_interval: 0x0006,
        max_interval: 0x0010,
        manufacturer_len: 0,
        service_data_len: 0,
        service_uuid_len: service_uuid_len,
        appearance: appearance as i32,
        flag: ESP_BLE_ADV_FLAG_GEN_DISC | ESP_BLE_ADV_FLAG_BREDR_NOT_SPT,
    }
}

/// The GATT server's state.
pub struct GattServer {
    profiles: Vec<ProfileEntry>,
    started: bool,
    advertisement_configured: bool,
    device_name: String,
    appearance: u16,
    connections: Vec<Connection>,
    adv_params: AdvParams,
    advertised_uuid: Option<[u8; 16]>,
}

/// Whether no two connections are the same client.
pub open spec fn distinct_clients(cs: Seq<Connection>) -> bool {
    forall|i: int, j: int| 0 <= i < j < cs.len() ==> cs[i].remote_bda@ != cs[j].remote_bda@
}

/// The first `n` connections of `cs` without those of the client `bda`, in
/// order.
pub open spec fn without_client(cs: Seq<Connection>, n: nat, bda: Seq<u8>) -> Seq<Connection>
    decreases n,
{
    if n == 0 {
        Seq::empty()
    } else {
        let rest = without_client(cs, (n - 1) as nat, bda);
        if cs[n - 1].remote_bda@ == bda {
            rest
        } else {
            rest.push(cs[n - 1])
        }
    }
}

proof fn lemma_without_client_from(cs: Seq<Connection>, n: nat, bda: Seq<u8>)
    requires
        n < cs.len(),
    ensures
        without_client(cs, n + 1, bda) == if cs[n as int].remote_bda@ == bda {
            without_client(cs, n, bda)
        } else {
            without_client(cs, n, bda).push(cs[n as int])
        },
{
}

proof fn lemma_without_client_members(cs: Seq<Connection>, n: nat, bda: Seq<u8>)
    requires
        n <= cs.len(),
    ensures
        forall|k: int| 0 <= k < without_client(cs, n, bda).len() ==> exists|j: int| 0 <= j < n
            && #[trigger] without_client(cs, n, bda)[k] == cs[j],
    decreases n,
{
    if n > 0 {
        lemma_without_client_members(cs, (n - 1) as nat, bda);
        let rest = without_client(cs, (n - 1) as nat, bda);
        assert forall|k: int| 0 <= k < without_client(cs, n, bda).len() implies exists|j: int| 0 <= j < n
            && #[trigger] without_client(cs, n, bda)[k] == cs[j] by {
            if k < rest.len() {
                assert(without_client(cs, n, bda)[k] == rest[k]);
                let j = choose|j: int| 0 <= j < n - 1 && #[trigger] rest[k] == cs[j];
                assert(without_client(cs, n, bda)[k] == cs[j]);
            } else {
                assert(without_client(cs, n, bda)[k] == cs[n - 1]);
            }
        }
    }
}

proof fn lemma_without_client_distinct(cs: Seq<Connection>, n: nat, bda: Seq<u8>)
    requires
        n <= cs.len(),
        distinct_clients(cs),
    ensures
        distinct_clients(without_client(cs, n, bda)),
        forall|k: int| 0 <= k < without_client(cs, n, bda).len() ==> exists|j: int| 0 <= j < n
            && #[trigger] without_client(cs, n, bda)[k] == cs[j],
    decreases n,
{
    lemma_without_client_members(cs, n, bda);
    if n > 0 {
        lemma_without_client_distinct(cs, (n - 1) as nat, bda);
        lemma_without_client_members(cs, (n - 1) as nat, bda);
        let rest = without_client(cs, (n - 1) as nat, bda);
        let w = without_client(cs, n, bda);
        if cs[n - 1].remote_bda@ != bda {
            assert forall|a: int, b: int| 0 <= a < b < w.len() implies w[a].remote_bda@ != w[b].remote_bda@ by {
                if b < rest.len() {
                    assert(w[a] == rest[a]);
                    assert(w[b] == rest[b]);
                } else {
                    assert(w[a] == rest[a]);
                    let j = choose|j: int| 0 <= j < n - 1 && #[trigger] rest[a] == cs[j];
                    assert(w[b] == cs[n - 1]);
                }
            }
        }
    }
}

impl GattServer {
    #[verifier::type_invariant]
    spec fn inv(self) -> bool {
        distinct_clients(self.connections@)
    }

    /// The profiles, in the order they were added.
    pub closed spec fn spec_profiles(self) -> Seq<ProfileEntry> {
        self.profiles@
    }

    /// Whether the server has been started.
    pub closed spec fn spec_started(self) -> bool {
        self.started
    }

    /// Whether the advertisement has been configured.
    pub closed spec fn spec_advertisement_configured(self) -> bool {
        self.advertisement_configured
    }

    /// The name advertised, as handed to the stack.
    pub closed spec fn spec_device_name(self) -> Seq<char> {
        self.device_name@
    }

    /// The appearance advertised.
    pub closed spec fn spec_appearance(self) -> u16 {
        self.appearance
    }

    /// The connected clients, in the order they connected.
    pub closed spec fn spec_connections(self) -> Seq<Connection> {
        self.connections@
    }

    /// The advertising parameters.
    pub closed spec fn spec_adv_params(self) -> AdvParams {
        self.adv_params
    }

    /// The 128-bit service UUID advertised in the scan response, if any.
    pub closed spec fn spec_advertised_uuid(self) -> Option<Seq<u8>> {
        match self.advertised_uuid {
            Some(u) => Some(u@),
            None => None,
        }
    }

    /// The length of the service UUID advertised in the scan response: 16
    /// bytes when a service is advertised.
    pub open spec fn spec_advertised_uuid_len(self) -> u16 {
        if self.spec_advertised_uuid() is Some { 16 } else { 0 }
    }

    /// The 128-bit service UUID advertised in the scan response, if any.
    pub fn advertised_uuid(&self) -> (r: Option<[u8; 16]>)
        ensures
            match r {
                Some(u) => self.spec_advertised_uuid() == Some(u@),
                None => self.spec_advertised_uuid() is None,
            },
    {
        self.advertised_uuid
    }

    /// Replaces the advertising parameters.
    pub fn set_adv_params(&mut self, params: AdvParams)
        ensures
            final(self).spec_adv_params() == params,
            final(self).spec_advertised_uuid() == old(self).spec_advertised_uuid(),
            final(self).spec_profiles() == old(self).spec_profiles(),
            final(self).spec_connections() == old(self).spec_connections(),
            final(self).spec_started() == old(self).spec_started(),
            final(self).spec_device_name() == old(self).spec_device_name(),
            final(self).spec_appearance() == old(self).spec_appearance(),
            final(self).spec_advertisement_configured() == old(self).spec_advertisement_configured(),
    {
        proof {
            use_type_invariant(&*self);
        }
        self.adv_params = params;
    }

    /// Advertises the service with UUID `service_uuid` in the scan
    /// response: its UUID, always given in its 128-bit form.
    pub fn advertise_service(&mut self, service_uuid: &BtUuid)
        ensures
            final(self).spec_advertised_uuid() == Some(uuid128_bytes(*service_uuid)),
            final(self).spec_adv_params() == old(self).spec_adv_params(),
            final(self).spec_profiles() == old(self).spec_profiles(),
            final(self).spec_connections() == old(self).spec_connections(),
            final(self).spec_started() == old(self).spec_started(),
            final(self).spec_device_name() == old(self).spec_device_name(),
            final(self).spec_appearance() == old(self).spec_appearance(),
            final(self).spec_advertisement_configured() == old(self).spec_advertisement_configured(),
    {
        proof {
            use_type_invariant(&*self);
        }
        self.advertised_uuid = Some(service_uuid.as_uuid128_array());
    }

    /// The name advertised, as handed to the stack.
    pub fn advertised_name(&self) -> (n: &String)
        ensures
            n@ == self.spec_device_name(),
    {
        &self.device_name
    }

    /// The advertising parameters.
    pub fn advertisement_parameters(&self) -> (p: AdvParams)
        ensures
            p == self.spec_adv_params(),
    {
        self.adv_params
    }

    /// The advertisement handed to the stack (see `server_adv_data`).
    pub fn advertisement_data(&self) -> (d: AdvData)
        ensures
            d == server_adv_data(false, self.spec_appearance(), 0),
    {
        AdvData {
            set_scan_rsp: false,
            include_name: true,
            include_txpower: true,
            min_interval: 0x0006,
            max_interval: 0x0010,
            manufacturer_len: 0,
            service_data_len: 0,
            service_uuid_len: 0,
            appearance: self.appearance as i32,
            flag: ESP_BLE_ADV_FLAG_GEN_DISC | ESP_BLE_ADV_FLAG_BREDR_NOT_SPT,
        }
    }

    /// The scan response handed to the stack (see `server_adv_data`).
    pub fn scan_response_data(&self) -> (d: AdvData)
        ensures
            d == server_adv_data(true, self.spec_appearance(), self.spec_advertised_uuid_len()),
    {
        AdvData {
            set_scan_rsp: true,
            include_name: false,
            include_txpower: false,
            min_interval: 0x0006,
            max_interval: 0x0010,
            manufacturer_len: 0,
            service_data_len: 0,
            service_uuid_len: if self.advertised_uuid.is_some() { 16 } else { 0 },
            appearance: self.appearance as i32,
            flag: ESP_BLE_ADV_FLAG_GEN_DISC | ESP_BLE_ADV_FLAG_BREDR_NOT_SPT,
        }
    }

    /// A server with no profile, not started, advertising the name `"ESP32"`
    /// (stored without the terminating NUL that `device_name` adds; whoever
    /// hands it to the stack terminates it) and a generic appearance, with no
    /// client and no advertised service.
    pub fn init() -> (s: Self)
        ensures
            s.spec_profiles().len() == 0,
            !s.spec_started(),
            !s.spec_advertisement_configured(),
            s.spec_device_name() == "ESP32"@,
            s.spec_appearance() == APPEARANCE_GENERIC_UNKNOWN,
            s.spec_connections().len() == 0,
            s.spec_adv_params() == default_adv_params(),
            s.spec_advertised_uuid() is None,
    {
        let mut name = String::new();
        push_str(&mut name, "ESP32");
        GattServer {
            profiles: Vec::new(),
            started: false,
            advertisement_configured: false,
            device_name: name,
            appearance: APPEARANCE_GENERIC_UNKNOWN,
            connections: Vec::new(),
            adv_params: AdvParams {
                adv_int_min: 0x20,
                adv_int_max: 0x40,
                adv_type: ADV_TYPE_IND,
                own_addr_type: BLE_ADDR_TYPE_RPA_PUBLIC,
                channel_map: ADV_CHNL_ALL,
                adv_filter_policy: ADV_FILTER_ALLOW_SCAN_ANY_CON_ANY,
            },
            advertised_uuid: None,
        }
    }

    /// Marks the server started. Returns whether it was not started before,
    /// in which case the caller brings the stack up and registers the
    /// profiles; a second start changes nothing.
    pub fn start(&mut self) -> (first: bool)
        ensures
            final(self).spec_adv_params() == old(self).spec_adv_params(),
            final(self).spec_advertised_uuid() == old(self).spec_advertised_uuid(),
            first == !old(self).spec_started(),
            final(self).spec_started(),
            final(self).spec_profiles() == old(self).spec_profiles(),
            final(self).spec_connections() == old(self).spec_connections(),
            final(self).spec_device_name() == old(self).spec_device_name(),
            final(self).spec_appearance() == old(self).spec_appearance(),
            final(self).spec_advertisement_configured() == old(self).spec_advertisement_configured(),
    {
        proof {
            use_type_invariant(&*self);
        }
        if self.started {
            return false;
        }
        self.started = true;
        true
    }

    /// Sets the advertised name: `name` followed by a NUL, as the stack
    /// takes it. Ignored once the advertisement is configured.
    pub fn device_name(&mut self, name: &str)
        ensures
            final(self).spec_adv_params() == old(self).spec_adv_params(),
            final(self).spec_advertised_uuid() == old(self).spec_advertised_uuid(),
            old(self).spec_advertisement_configured() ==> final(self).spec_device_name() == old(self).spec_device_name(),
            !old(self).spec_advertisement_configured() ==> final(self).spec_device_name() == name@.push('\0'),
            final(self).spec_profiles() == old(self).spec_profiles(),
            final(self).spec_connections() == old(self).spec_connections(),
            final(self).spec_started() == old(self).spec_started(),
            final(self).spec_appearance() == old(self).spec_appearance(),
            final(self).spec_advertisement_configured() == old(self).spec_advertisement_configured(),
    {
        proof {
            use_type_invariant(&*self);
        }
        if self.advertisement_configured {
            return;
        }
        let mut n = String::new();
        push_str(&mut n, name);
        crate::text::push_char(&mut n, '\0');
        assert(n@ =~= name@.push('\0'));
        self.device_name = n;
    }

    /// Sets the advertised appearance; ignored once the advertisement is
    /// configured.
    pub fn appearance(&mut self, appearance: u16)
        ensures
            final(self).spec_adv_params() == old(self).spec_adv_params(),
            final(self).spec_advertised_uuid() == old(self).spec_advertised_uuid(),
            old(self).spec_advertisement_configured() ==> final(self).spec_appearance() == old(self).spec_appearance(),
            !old(self).spec_advertisement_configured() ==> final(self).spec_appearance() == appearance,
            final(self).spec_profiles() == old(self).spec_profiles(),
            final(self).spec_connections() == old(self).spec_connections(),
            final(self).spec_started() == old(self).spec_started(),
            final(self).spec_device_name() == old(self).spec_device_name(),
            final(self).spec_advertisement_configured() == old(self).spec_advertisement_configured(),
    {
        proof {
            use_type_invariant(&*self);
        }
        if self.advertisement_configured {
            return;
        }
        self.appearance = appearance;
    }

    /// Records that the advertisement has been configured.
    pub fn set_advertisement_configured(&mut self)
        ensures
            final(self).spec_adv_params() == old(self).spec_adv_params(),
            final(self).spec_advertised_uuid() == old(self).spec_advertised_uuid(),
            final(self).spec_advertisement_configured(),
            final(self).spec_profiles() == old(self).spec_profiles(),
            final(self).spec_connections() == old(self).spec_connections(),
            final(self).spec_started() == old(self).spec_started(),
            final(self).spec_device_name() == old(self).spec_device_name(),
            final(self).spec_appearance() == old(self).spec_appearance(),
    {
        proof {
            use_type_invariant(&*self);
        }
        self.advertisement_configured = true;
    }

    /// Adds a profile; ignored once the server has started.
    pub fn profile(&mut self, profile: ProfileEntry)
        ensures
            final(self).spec_adv_params() == old(self).spec_adv_params(),
            final(self).spec_advertised_uuid() == old(self).spec_advertised_uuid(),
            old(self).spec_started() ==> final(self).spec_profiles() == old(self).spec_profiles(),
            !old(self).spec_started() ==> final(self).spec_profiles() == old(self).spec_profiles().push(profile),
            final(self).spec_connections() == old(self).spec_connections(),
            final(self).spec_started() == old(self).spec_started(),
            final(self).spec_device_name() == old(self).spec_device_name(),
            final(self).spec_appearance() == old(self).spec_appearance(),
            final(self).spec_advertisement_configured() == old(self).spec_advertisement_configured(),
    {
        proof {
            use_type_invariant(&*self);
        }
        if self.started {
            return;
        }
        let mut ps: Vec<ProfileEntry> = Vec::new();
        std::mem::swap(&mut ps, &mut self.profiles);
        ps.push(profile);
        self.profiles = ps;
    }

    /// Puts `profile` at position `index` of the profiles and gives back the
    /// one that was there, so that the registration events can update it.
    pub fn replace_profile(&mut self, index: usize, profile: ProfileEntry) -> (old_profile: ProfileEntry)
        requires
            index < old(self).spec_profiles().len(),
        ensures
            old_profile == old(self).spec_profiles()[index as int],
            final(self).spec_profiles() == old(self).spec_profiles().update(index as int, profile),
            final(self).spec_adv_params() == old(self).spec_adv_params(),
            final(self).spec_advertised_uuid() == old(self).spec_advertised_uuid(),
            final(self).spec_connections() == old(self).spec_connections(),
            final(self).spec_started() == old(self).spec_started(),
            final(self).spec_device_name() == old(self).spec_device_name(),
            final(self).spec_appearance() == old(self).spec_appearance(),
            final(self).spec_advertisement_configured() == old(self).spec_advertisement_configured(),
    {
        proof {
            use_type_invariant(&*self);
        }
        let mut ps: Vec<ProfileEntry> = Vec::new();
        std::mem::swap(&mut ps, &mut self.profiles);
        let ghost before = ps@;
        let taken = ps.remove(index);
        ps.insert(index, profile);
        assert(ps@ =~= before.update(index as int, profile));
        self.profiles = ps;
        taken
    }

    /// The profiles.
    pub fn profiles(&self) -> (p: &Vec<ProfileEntry>)
        ensures
            p@ == self.spec_profiles(),
    {
        &self.profiles
    }

    /// The position of the first profile serving `iface`.
    pub fn get_profile(&self, iface: u8) -> (r: Option<usize>)
        ensures
            match r {
                Some(i) => first_match(self.spec_profiles(), serves(iface)) == Some(i as int),
                None => first_match(self.spec_profiles(), serves(iface)) is None,
            },
    {
        find_profile(&self.profiles, iface)
    }

    /// The positions of all profiles serving `iface`, in order: those an
    /// event for the interface is handed to.
    pub fn profiles_for(&self, iface: u8) -> (r: Vec<usize>)
        ensures
            forall|k: int| 0 <= k < r@.len() ==> #[trigger] r@[k] < self.spec_profiles().len()
                && self.spec_profiles()[r@[k] as int].interface == Some(iface),
            forall|i: int| 0 <= i < self.spec_profiles().len() && self.spec_profiles()[i].interface == Some(iface)
                ==> r@.contains(i as usize),
            forall|a: int, b: int| 0 <= a < b < r@.len() ==> r@[a] < r@[b],
    {
        let mut r: Vec<usize> = Vec::new();
        let mut i: usize = 0;
        while i < self.profiles.len()
            invariant
                i <= self.profiles@.len(),
                forall|k: int| 0 <= k < r@.len() ==> #[trigger] r@[k] < i
                    && self.profiles@[r@[k] as int].interface == Some(iface),
                forall|j: int| 0 <= j < i && self.profiles@[j].interface == Some(iface) ==> r@.contains(j as usize),
                forall|a: int, b: int| 0 <= a < b < r@.len() ==> r@[a] < r@[b],
            decreases self.profiles.len() - i,
        {
            let ghost before = r@;
            if self.profiles[i].interface == Some(iface) {
                r.push(i);
                assert(r@[r@.len() - 1] == i);
            }
            assert forall|j: int| 0 <= j < i + 1 && self.profiles@[j].interface == Some(iface) implies r@.contains(j as usize) by {
                if j < i {
                    assert(before.contains(j as usize));
                    let w = choose|w: int| 0 <= w < before.len() && before[w] == j as usize;
                    assert(r@[w] == j as usize);
                } else {
                    assert(r@[r@.len() - 1] == i);
                }
            }
            i = i + 1;
        }
        r
    }

    /// Records a connected client; a client already connected is kept as
    /// it was.
    pub fn on_connect(&mut self, connection: Connection)
        ensures
            final(self).spec_adv_params() == old(self).spec_adv_params(),
            final(self).spec_advertised_uuid() == old(self).spec_advertised_uuid(),
            (exists|i: int| 0 <= i < old(self).spec_connections().len()
                && old(self).spec_connections()[i].remote_bda@ == connection.remote_bda@)
                ==> final(self).spec_connections() == old(self).spec_connections(),
            (forall|i: int| 0 <= i < old(self).spec_connections().len()
                ==> old(self).spec_connections()[i].remote_bda@ != connection.remote_bda@)
                ==> final(self).spec_connections() == old(self).spec_connections().push(connection),
            final(self).spec_profiles() == old(self).spec_profiles(),
            final(self).spec_started() == old(self).spec_started(),
            final(self).spec_device_name() == old(self).spec_device_name(),
            final(self).spec_appearance() == old(self).spec_appearance(),
            final(self).spec_advertisement_configured() == old(self).spec_advertisement_configured(),
    {
        proof {
            use_type_invariant(&*self);
        }
        let mut i: usize = 0;
        while i < self.connections.len()
            invariant
                i <= self.connections@.len(),
                forall|j: int| 0 <= j < i ==> self.connections@[j].remote_bda@ != connection.remote_bda@,
            decreases self.connections.len() - i,
        {
            if self.connections[i].same_client(&connection) {
                return;
            }
            i = i + 1;
        }
        let mut cs: Vec<Connection> = Vec::new();
        std::mem::swap(&mut cs, &mut self.connections);
        let ghost before = cs@;
        cs.push(connection);
        assert(distinct_clients(cs@)) by {
            assert forall|a: int, b: int| 0 <= a < b < cs@.len() implies cs@[a].remote_bda@ != cs@[b].remote_bda@ by {
                if b < before.len() {
                    assert(cs@[a] == before[a]);
                    assert(cs@[b] == before[b]);
                }
            }
        }
        self.connections = cs;
    }

    /// Forgets a disconnected client; the other clients stay, in order.
    pub fn on_disconnect(&mut self, connection: Connection)
        ensures
            final(self).spec_adv_params() == old(self).spec_adv_params(),
            final(self).spec_advertised_uuid() == old(self).spec_advertised_uuid(),
            final(self).spec_connections() == without_client(old(self).spec_connections(),
                old(self).spec_connections().len(), connection.remote_bda@),
            final(self).spec_profiles() == old(self).spec_profiles(),
            final(self).spec_started() == old(self).spec_started(),
            final(self).spec_device_name() == old(self).spec_device_name(),
            final(self).spec_appearance() == old(self).spec_appearance(),
            final(self).spec_advertisement_configured() == old(self).spec_advertisement_configured(),
    {
        proof {
            use_type_invariant(&*self);
        }
        let ghost bda = connection.remote_bda@;
        let mut old_cs: Vec<Connection> = Vec::new();
        std::mem::swap(&mut old_cs, &mut self.connections);
        let mut kept: Vec<Connection> = Vec::new();
        let mut i: usize = 0;
        while i < old_cs.len()
            invariant
                i <= old_cs@.len(),
                distinct_clients(old_cs@),
                kept@ == without_client(old_cs@, i as nat, bda),
                bda == connection.remote_bda@,
            decreases old_cs.len() - i,
        {
            let c = old_cs[i];
            let ghost before = kept@;
            proof {
                lemma_without_client_from(old_cs@, i as nat, bda);
            }
            if !c.same_client(&connection) {
                kept.push(c);
            }
            i = i + 1;
        }
        proof {
            lemma_without_client_distinct(old_cs@, old_cs@.len(), bda);
        }
        self.connections = kept;
    }

    /// Takes a profile registration into account:
    /// when it succeeded, the profile with the application identifier is
    /// assigned the interface, and the result says whether the advertisement
    /// is to be configured now (it is configured once, at the first
    /// registration); a failed registration changes nothing.
    pub fn on_reg(&mut self, iface: u8, app_id: u16, ok: bool) -> (configure_advertisement: bool)
        requires
            ok ==> exists|i: int| 0 <= i < old(self).spec_profiles().len() && #[trigger] old(self).spec_profiles()[i].identifier == app_id,
        ensures
            final(self).spec_adv_params() == old(self).spec_adv_params(),
            final(self).spec_advertised_uuid() == old(self).spec_advertised_uuid(),
            !ok ==> !configure_advertisement && final(self).spec_profiles() == old(self).spec_profiles()
                && final(self).spec_advertisement_configured() == old(self).spec_advertisement_configured(),
            ok ==> configure_advertisement == !old(self).spec_advertisement_configured()
                && final(self).spec_advertisement_configured()
                && (first_match(old(self).spec_profiles(), has_identifier(app_id)) matches Some(i)
                    && final(self).spec_profiles() == old(self).spec_profiles().update(i, ProfileEntry {
                        identifier: old(self).spec_profiles()[i].identifier,
                        interface: Some(iface),
                        services: old(self).spec_profiles()[i].services,
                    })),
            final(self).spec_connections() == old(self).spec_connections(),
            final(self).spec_started() == old(self).spec_started(),
            final(self).spec_device_name() == old(self).spec_device_name(),
            final(self).spec_appearance() == old(self).spec_appearance(),
    {
        proof {
            use_type_invariant(&*self);
        }
        if !ok {
            return false;
        }
        let mut i: usize = 0;
        while i < self.profiles.len()
            invariant
                i <= self.profiles@.len(),
                forall|j: int| 0 <= j < i ==> !has_identifier(app_id)(#[trigger] self.profiles@[j]),
                exists|j: int| 0 <= j < self.profiles@.len() && #[trigger] self.profiles@[j].identifier == app_id,
            ensures
                i <= self.profiles@.len(),
                forall|j: int| 0 <= j < i ==> !has_identifier(app_id)(#[trigger] self.profiles@[j]),
                exists|j: int| 0 <= j < self.profiles@.len() && #[trigger] self.profiles@[j].identifier == app_id,
                i < self.profiles@.len() ==> self.profiles@[i as int].identifier == app_id,
            decreases self.profiles.len() - i,
        {
            if self.profiles[i].identifier == app_id {
                break;
            }
            i = i + 1;
        }
        if i == self.profiles.len() {
            proof {
                let j = choose|j: int| 0 <= j < self.profiles@.len() && #[trigger] self.profiles@[j].identifier == app_id;
                assert(!has_identifier(app_id)(self.profiles@[j]));
            }
            return false;
        }
        proof {
            lemma_first_unique(self.profiles@, has_identifier(app_id), i as int);
        }
        let ghost before = self.profiles@;
        let mut ps: Vec<ProfileEntry> = Vec::new();
        std::mem::swap(&mut ps, &mut self.profiles);
        let mut p = ps.remove(i);
        p.interface = Some(iface);
        ps.insert(i, p);
        assert(ps@ =~= before.update(i as int, ProfileEntry {
            identifier: before[i as int].identifier,
            interface: Some(iface),
            services: before[i as int].services,
        }));
        self.profiles = ps;
        let configure = !self.advertisement_configured;
        self.advertisement_configured = true;
        configure
    }

    /// Whether any client is connected.
    pub fn is_client_connected(&self) -> (b: bool)
        ensures
            b == (self.spec_connections().len() > 0),
    {
        self.connections.len() > 0
    }

    /// The characteristic a set-attribute-value event for the interface
    /// `iface`, the service handle `srvc_handle` and the attribute handle
    /// `attr_handle` lands on (see `attr_target`).
    pub fn find_target(&self, iface: u8, srvc_handle: u16, attr_handle: u16) -> (r: Option<(usize, usize, usize)>)
        ensures
            match r {
                Some((p, s, c)) => attr_target(self.spec_profiles(), iface, srvc_handle, attr_handle)
                    == Some((p as int, s as int, c as int)),
                None => attr_target(self.spec_profiles(), iface, srvc_handle, attr_handle) is None,
            },
    {
        let p = match find_profile(&self.profiles, iface) {
            Some(p) => p,
            None => { return None; },
        };
        let s = match find_service(&self.profiles[p].services, srvc_handle) {
            Some(s) => s,
            None => { return None; },
        };
        match find_characteristic(&self.profiles[p].services[s].characteristics, attr_handle) {
            Some(c) => Some((p, s, c)),
            None => None,
        }
    }

    /// Whom a value change of the attribute `attr_handle` in the service
    /// `srvc_handle` of the profile serving `iface` is sent to.
    ///
    /// `None` when no such characteristic is found. Otherwise each connected
    /// client, in order, has the characteristic's CCCD read for it through
    /// `read_cccd` (connection id, client address, CCCD handle) and is sent
    /// what `notice_for` says; nothing is read or sent when the CCCD is not
    /// answered by the application.
    pub fn on_set_attr_val<F: Fn(u16, [u8; 6], u16) -> Vec<u8>>(
        &self,
        iface: u8,
        srvc_handle: u16,
        attr_handle: u16,
        read_cccd: &F,
    ) -> (r: Option<Vec<Notice>>)
        requires
            forall|id: u16, bda: [u8; 6], h: u16| call_requires(*read_cccd, (id, bda, h)),
            forall|id: u16, bda: [u8; 6], h: u16, v: Vec<u8>| call_ensures(*read_cccd, (id, bda, h), v) ==> v@.len() >= 1,
            attr_target(self.spec_profiles(), iface, srvc_handle, attr_handle) matches Some(t)
                ==> (self.spec_connections().len() > 0 ==> cccd_handle_of(target_characteristic(self.spec_profiles(), t)) is Some),
        ensures
            attr_target(self.spec_profiles(), iface, srvc_handle, attr_handle) is None ==> r is None,
            attr_target(self.spec_profiles(), iface, srvc_handle, attr_handle) matches Some(t) ==> {
                let ch = target_characteristic(self.spec_profiles(), t);
                let conns = self.spec_connections();
                &&& r is Some
                &&& (conns.len() == 0 || !cccd_by_app(ch)) ==> r->0@.len() == 0
                &&& (conns.len() > 0 && cccd_by_app(ch)) ==> exists|values: Seq<Vec<u8>>| {
                    &&& values.len() == conns.len()
                    &&& forall|k: int| 0 <= k < conns.len() ==> #[trigger] call_ensures(*read_cccd,
                        (conns[k].id, conns[k].remote_bda, cccd_handle_of(ch)->0), values[k])
                    &&& r->0@ == notices_for(ch, conns, values, conns.len())
                }
            },
    {
        let (p, s, c) = match self.find_target(iface, srvc_handle, attr_handle) {
            Some(t) => t,
            None => { return None; },
        };
        let ch = &self.profiles[p].services[s].characteristics[c];
        let mut out: Vec<Notice> = Vec::new();
        if self.connections.len() == 0 {
            return Some(out);
        }
        let k = match find_cccd(&ch.descriptors) {
            Some(k) => k,
            None => { return Some(out); },
        };
        let cccd = ch.descriptors[k];
        let cccd_handle = match cccd.handle {
            Some(h) => h,
            None => { return Some(out); },
        };
        if !cccd.response_by_app {
            return Some(out);
        }
        let ghost mut values: Seq<Vec<u8>> = Seq::empty();
        let mut i: usize = 0;
        while i < self.connections.len()
            invariant
                forall|id: u16, bda: [u8; 6], h: u16| call_requires(*read_cccd, (id, bda, h)),
                forall|id: u16, bda: [u8; 6], h: u16, v: Vec<u8>| call_ensures(*read_cccd, (id, bda, h), v) ==> v@.len() >= 1,
                i <= self.connections@.len(),
                values.len() == i,
                forall|j: int| 0 <= j < i ==> #[trigger] call_ensures(*read_cccd,
                    (self.connections@[j].id, self.connections@[j].remote_bda, cccd_handle), values[j]),
                out@ == notices_for(*ch, self.connections@, values, i as nat),
            decreases self.connections.len() - i,
        {
            let conn = self.connections[i];
            let value = read_cccd(conn.id, conn.remote_bda, cccd_handle);
            let ghost before = out@;
            let b = value[0];
            let notification = b & 1u8 == 1u8;
            let indication = b & 2u8 == 2u8;
            if ch.indicate && indication {
                out.push(Notice { conn_id: conn.id, indicate: true });
            } else if ch.notify && notification {
                out.push(Notice { conn_id: conn.id, indicate: false });
            }
            proof {
                let old_values = values;
                values = values.push(value);
                assert forall|j: int| 0 <= j < i + 1 implies #[trigger] call_ensures(*read_cccd,
                    (self.connections@[j].id, self.connections@[j].remote_bda, cccd_handle), values[j]) by {
                    if j < i {
                        assert(values[j] == old_values[j]);
                    }
                }
                lemma_notices_agree(*ch, self.connections@, old_values, values, i as nat);
                assert(notices_for(*ch, self.connections@, values, (i + 1) as nat)
                    == notices_for(*ch, self.connections@, values, i as nat) + notice_for(*ch, self.connections@[i as int], values[i as int]));
                assert(out@ =~= before + notice_for(*ch, self.connections@[i as int], values[i as int]));
            }
            i = i + 1;
        }
        proof {
            let t = attr_target(self.spec_profiles(), iface, srvc_handle, attr_handle)->0;
            assert(t == (p as int, s as int, c as int));
            assert(*ch == target_characteristic(self.spec_profiles(), t));
            assert(cccd_handle_of(*ch) == Some(cccd_handle));
            assert(cccd_by_app(*ch));
            let conns = self.spec_connections();
            assert(values.len() == conns.len());
            assert(forall|k: int| 0 <= k < conns.len() ==> #[trigger] call_ensures(*read_cccd,
                (conns[k].id, conns[k].remote_bda, cccd_handle_of(*ch)->0), values[k]));
            assert(out@ == notices_for(*ch, conns, values, conns.len()));
        }
        Some(out)
    }
}

/// Native BLE GAP event: the advertising data was set.
pub const ESP_GAP_BLE_ADV_DATA_SET_COMPLETE_EVT: u32 = 0;
/// Native BLE GAP event: the scan response data was set.
pub const ESP_GAP_BLE_SCAN_RSP_DATA_SET_COMPLETE_EVT: u32 = 1;

/// Whether the server starts advertising on a BLE GAP event: once the
/// advertising data or the scan response data has been set.
pub fn starts_advertising(event: u32) -> (b: bool)
    ensures
        b == (event == ESP_GAP_BLE_ADV_DATA_SET_COMPLETE_EVT || event == ESP_GAP_BLE_SCAN_RSP_DATA_SET_COMPLETE_EVT),
{
    event == ESP_GAP_BLE_ADV_DATA_SET_COMPLETE_EVT || event == ESP_GAP_BLE_SCAN_RSP_DATA_SET_COMPLETE_EVT
}

// ---------------------------------------------------------------------------
// Characteristic values
// ---------------------------------------------------------------------------

/// The maximum value length a characteristic gets when none is set and no
/// value has been given to it.
pub const DEFAULT_MAX_VALUE_LENGTH: u16 = 8;

/// The value of a characteristic and the limits on its length.
pub struct CharacteristicValue {
    value: Vec<u8>,
    max_value_length: Option<u16>,
    value_set: bool,
    handle: Option<u16>,
    registered_max: u16,
}

/// The maximum value length registered with the stack: the explicit maximum
/// when one is set; else the length of the latest value set before the
/// registration, narrowed to 16 bits; else the default of 8 bytes.
pub open spec fn registration_max_len(max_value_length: Option<u16>, value_set: bool, len: nat) -> u16 {
    match max_value_length {
        Some(m) => m,
        None => if value_set { len as u16 } else { DEFAULT_MAX_VALUE_LENGTH },
    }
}

impl CharacteristicValue {
    /// The value held.
    pub closed spec fn spec_value(self) -> Seq<u8> {
        self.value@
    }

    /// The explicit maximum length, if set.
    pub closed spec fn spec_max_value_length(self) -> Option<u16> {
        self.max_value_length
    }

    /// Whether a value has been set.
    pub closed spec fn spec_value_set(self) -> bool {
        self.value_set
    }

    /// The handle the stack assigned, once registered.
    pub closed spec fn spec_handle(self) -> Option<u16> {
        self.handle
    }

    /// The maximum length registered with the stack, once registered.
    pub closed spec fn spec_registered_max(self) -> u16 {
        self.registered_max
    }

    /// The maximum length the characteristic would be registered with now
    /// (see `registration_max_len`).
    pub open spec fn spec_max_len(self) -> u16 {
        registration_max_len(self.spec_max_value_length(), self.spec_value_set(), self.spec_value().len())
    }

    /// Whether a value of `new_len` bytes may be set: any value before the
    /// registration, afterwards one no longer than the maximum registered.
    pub open spec fn value_fits(self, new_len: nat) -> bool {
        self.spec_handle() is None || new_len <= self.spec_registered_max()
    }

    /// A new characteristic's value: a single zero byte, no maximum, no value
    /// set, not registered.
    pub fn new() -> (v: Self)
        ensures
            v.spec_value() == seq![0u8],
            v.spec_max_value_length() is None,
            !v.spec_value_set(),
            v.spec_handle() is None,
    {
        let value = vec![0u8];
        assert(value@ =~= seq![0u8]);
        CharacteristicValue { value, max_value_length: None, value_set: false, handle: None, registered_max: 0 }
    }

    /// Sets the explicit maximum length.
    pub fn max_value_length(&mut self, length: u16)
        ensures
            final(self).spec_max_value_length() == Some(length),
            final(self).spec_value() == old(self).spec_value(),
            final(self).spec_value_set() == old(self).spec_value_set(),
            final(self).spec_handle() == old(self).spec_handle(),
            final(self).spec_registered_max() == old(self).spec_registered_max(),
    {
        self.max_value_length = Some(length);
    }

    /// Records the handle the stack assigned; the maximum length registered
    /// is the one the characteristic was registered with (`spec_max_len`).
    pub fn registered(&mut self, handle: u16)
        ensures
            final(self).spec_handle() == Some(handle),
            final(self).spec_registered_max() == old(self).spec_max_len(),
            final(self).spec_value() == old(self).spec_value(),
            final(self).spec_value_set() == old(self).spec_value_set(),
            final(self).spec_max_value_length() == old(self).spec_max_value_length(),
    {
        let m = self.attr_max_len();
        self.handle = Some(handle);
        self.registered_max = m;
    }

    /// The handle the stack assigned, once registered.
    pub fn handle(&self) -> (h: Option<u16>)
        ensures
            h == self.spec_handle(),
    {
        self.handle
    }

    /// Whether `value` may be set (see `value_fits`).
    pub fn fits(&self, value: &[u8]) -> (b: bool)
        ensures
            b == self.value_fits(value@.len()),
    {
        match self.handle {
            None => true,
            Some(_) => value.len() <= self.registered_max as usize,
        }
    }

    /// Replaces the value (reads are then answered automatically with it).
    /// Returns the handle under which the stack's copy is to be updated, if
    /// the characteristic is registered. A value too long for the registered
    /// maximum is refused (the stack could not hold it).
    pub fn set_value(&mut self, value: Vec<u8>) -> (push: Option<u16>)
        requires
            old(self).value_fits(value@.len()),
        ensures
            final(self).spec_value() == value@,
            final(self).spec_value_set(),
            final(self).spec_max_value_length() == old(self).spec_max_value_length(),
            final(self).spec_handle() == old(self).spec_handle(),
            final(self).spec_registered_max() == old(self).spec_registered_max(),
            push == old(self).spec_handle(),
    {
        self.value = value;
        self.value_set = true;
        self.handle
    }

    /// Whether the stack answers reads automatically with a value that may
    /// be registered: an automatic response needs a value (registering an
    /// empty one is refused).
    pub fn registrable(&self, response_by_app: bool) -> (b: bool)
        ensures
            b == (response_by_app || self.spec_value().len() > 0),
    {
        response_by_app || self.value.len() > 0
    }

    /// The maximum attribute length the characteristic would be registered
    /// with now (see `registration_max_len`).
    pub fn attr_max_len(&self) -> (n: u16)
        ensures
            n == self.spec_max_len(),
    {
        match self.max_value_length {
            Some(m) => m,
            None => if self.value_set { self.value.len() as u16 } else { DEFAULT_MAX_VALUE_LENGTH },
        }
    }
}

/// What registering a characteristic hands to the stack.
#[derive(Debug, Clone, Copy, PartialEq, Eq, Structural)]
pub struct CharAddPlan {
    /// The native permission mask.
    pub perm: u16,
    /// The native property mask.
    pub property: u8,
    /// The attribute's maximum length.
    pub attr_max_len: u16,
    /// The attribute's current length.
    pub attr_len: u16,
    /// Whether a CCCD is added to the characteristic first.
    pub with_cccd: bool,
}

/// The registration of a characteristic with value `v`, properties `props`
/// and permissions `perms`: its masks, its maximum length (see
/// `registration_max_len`), its current length narrowed to 16 bits, and a
/// CCCD when it notifies or indicates.
pub open spec fn char_add_plan(v: CharacteristicValue, props: CharacteristicProperties, perms: AttributePermissions) -> CharAddPlan {
    CharAddPlan {
        perm: permission_bits(perms),
        property: property_bits(props.flags()),
        attr_max_len: v.spec_max_len(),
        attr_len: v.spec_value().len() as u16,
        with_cccd: props.flags().notify || props.flags().indicate,
    }
}

/// How a characteristic is registered (see `char_add_plan`). An automatic
/// response needs a value: registering an empty one is refused, so the
/// value must be `registrable`.
pub fn register_characteristic(
    v: &CharacteristicValue,
    props: &CharacteristicProperties,
    perms: &AttributePermissions,
    response_by_app: bool,
) -> (p: CharAddPlan)
    requires
        response_by_app || v.spec_value().len() > 0,
    ensures
        p == char_add_plan(*v, *props, *perms),
{
    let len = v.value.len() as u16;
    let max = v.attr_max_len();
    CharAddPlan {
        perm: perms.to_bits(),
        property: props.to_bits(),
        attr_max_len: max,
        attr_len: len,
        with_cccd: needs_cccd(props),
    }
}

/// Whether the stack takes `mtu` as the local MTU: larger than 23 bytes and
/// at most 517 (the stack refuses any other value).
pub open spec fn valid_local_mtu(mtu: u16) -> bool {
    23 < mtu && mtu <= 517
}

/// Whether `mtu` may be set as the local MTU (see `valid_local_mtu`).
pub fn local_mtu_accepted(mtu: u16) -> (b: bool)
    ensures
        b == valid_local_mtu(mtu),
{
    23 < mtu && mtu <= 517
}

/// UUID of the descriptor that describes a characteristic to the user.
pub const USER_DESCRIPTION_UUID16: u16 = 0x2901;

/// The value of a descriptor.
pub struct DescriptorValue {
    value: Vec<u8>,
    handle: Option<u16>,
}

impl DescriptorValue {
    /// The value held.
    pub closed spec fn spec_value(self) -> Seq<u8> {
        self.value@
    }

    /// The handle the stack assigned, once registered.
    pub closed spec fn spec_handle(self) -> Option<u16> {
        self.handle
    }

    /// A new descriptor's value: a single zero byte, not registered.
    pub fn new() -> (v: Self)
        ensures
            v.spec_value() == seq![0u8],
            v.spec_handle() is None,
    {
        let value = vec![0u8];
        assert(value@ =~= seq![0u8]);
        DescriptorValue { value, handle: None }
    }

    /// The value held.
    pub fn bytes(&self) -> (b: &Vec<u8>)
        ensures
            b@ == self.spec_value(),
    {
        &self.value
    }

    /// The handle the stack assigned, once registered.
    pub fn handle(&self) -> (h: Option<u16>)
        ensures
            h == self.spec_handle(),
    {
        self.handle
    }

    /// Records the handle the stack assigned.
    pub fn registered(&mut self, handle: u16)
        ensures
            final(self).spec_handle() == Some(handle),
            final(self).spec_value() == old(self).spec_value(),
    {
        self.handle = Some(handle);
    }

    /// Replaces the value. Returns the handle under which the stack's copy
    /// is to be updated, if the descriptor is registered.
    pub fn set_value(&mut self, value: Vec<u8>) -> (push: Option<u16>)
        ensures
            final(self).spec_value() == value@,
            final(self).spec_handle() == old(self).spec_handle(),
            push == old(self).spec_handle(),
    {
        self.value = value;
        self.handle
    }

    /// The attribute length registered with the stack, both as the current
    /// and the maximum length: the value's length, narrowed to 16 bits.
    pub fn attr_len(&self) -> (n: u16)
        ensures
            n == self.spec_value().len() as u16,
    {
        self.value.len() as u16
    }
}

/// The user description descriptor for `description`: read-only, with the
/// description's UTF-8 bytes as its value, not registered.
pub fn user_description(description: &str) -> (r: (u16, AttributePermissions, DescriptorValue))
    ensures
        r.0 == USER_DESCRIPTION_UUID16,
        r.1 == (AttributePermissions { read_access: true, write_access: false, encryption_required: false }),
        r.2.spec_value() == description.spec_bytes(),
        r.2.spec_handle() is None,
{
    let perms = AttributePermissions::new().read();
    let mut value = DescriptorValue::new();
    let bytes = vstd::slice::slice_to_vec(description.as_bytes());
    value.set_value(bytes);
    (USER_DESCRIPTION_UUID16, perms, value)
}

/// Whether a characteristic takes a read callback: it announces reads and
/// its permissions allow them (otherwise the callback is ignored).
pub fn accepts_read_callback(props: &CharacteristicProperties, perms: &AttributePermissions) -> (b: bool)
    ensures
        b == (props.flags().read && perms.read_access),
{
    props.is_read() && perms.read_access
}

/// Whether a characteristic takes a write callback: it announces writes,
/// with or without response, and its permissions allow them.
pub fn accepts_write_callback(props: &CharacteristicProperties, perms: &AttributePermissions) -> (b: bool)
    ensures
        b == ((props.flags().write || props.flags().write_without_response) && perms.write_access),
{
    props.is_writable() && perms.write_access
}

/// Whether a characteristic gets a CCCD when it is registered: when it
/// notifies or indicates.
pub fn needs_cccd(props: &CharacteristicProperties) -> (b: bool)
    ensures
        b == (props.flags().notify || props.flags().indicate),
{
    props.is_notify() || props.is_indicate()
}

} // verus!
