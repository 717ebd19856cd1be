use esp_idf_svc::ble::{
    cccd_key, cccd_status, control_code, gatt_response, AttributePermissions, CccdStore,
    CharacteristicProperties, Connection, ESP_GATT_AUTO_RSP, ESP_GATT_RSP_BY_APP,
};
use esp_idf_svc::gatt::{
    on_read, on_write, AttrEntry, AttrRef, AttrUuid, CharacteristicEntry, Dispatch, ProfileEntry, ServiceEntry,
};
use esp_idf_svc::gatt_registry::{on_char_add, on_char_add_descr, on_create};
use esp_idf_svc::gatt_server::{
    accepts_read_callback, accepts_write_callback, initialise_ble_stack, needs_cccd, route_gatts_event,
    starts_advertising, BleStackStep, CharacteristicValue, GattServer, GattsRoute, Notice,
};

fn attr(uuid16: Option<u16>, handle: u16, write: bool, by_app: bool) -> AttrEntry {
    AttrEntry { uuid: AttrUuid::Uuid16(uuid16.unwrap()), handle: Some(handle), has_write_callback: write, response_by_app: by_app }
}

fn profile() -> ProfileEntry {
    ProfileEntry {
        identifier: 0,
        interface: Some(3),
        services: vec![ServiceEntry {
            uuid: AttrUuid::Uuid16(0x180F),
            handle: Some(40),
            characteristics: vec![
                CharacteristicEntry {
                    attr: attr(Some(0x2A19), 42, true, true),
                    notify: true,
                    indicate: false,
                    descriptors: vec![attr(Some(0x2902), 43, true, true)],
                },
                CharacteristicEntry {
                    attr: attr(Some(0x2A00), 44, false, false),
                    notify: false,
                    indicate: true,
                    descriptors: vec![attr(Some(0x2902), 45, true, true), attr(Some(0x2901), 46, false, false)],
                },
            ],
        }],
    }
}

#[test]
fn reads_reach_the_application_callbacks() {
    let p = profile();
    assert_eq!(
        on_read(&p, 42),
        vec![Dispatch { target: AttrRef { service: 0, characteristic: 0, descriptor: None }, respond: true }]
    );
    assert_eq!(
        on_read(&p, 45),
        vec![Dispatch { target: AttrRef { service: 0, characteristic: 1, descriptor: Some(0) }, respond: true }]
    );
    // Answered automatically by the stack.
    assert_eq!(on_read(&p, 44), vec![]);
    assert_eq!(on_read(&p, 46), vec![]);
    assert_eq!(on_read(&p, 99), vec![]);
}

#[test]
fn writes_reach_the_write_callbacks() {
    let p = profile();
    assert_eq!(
        on_write(&p, 42, true),
        vec![Dispatch { target: AttrRef { service: 0, characteristic: 0, descriptor: None }, respond: true }]
    );
    assert_eq!(
        on_write(&p, 43, false),
        vec![Dispatch { target: AttrRef { service: 0, characteristic: 0, descriptor: Some(0) }, respond: false }]
    );
    assert_eq!(on_write(&p, 44, true), vec![]);
}

#[test]
fn responses_are_padded() {
    let r = gatt_response(42, &[1, 2, 3]);
    assert_eq!(r.handle, 42);
    assert_eq!(r.len, 3);
    assert_eq!(r.value.len(), 600);
    assert_eq!(&r.value[..3], &[1, 2, 3]);
    assert!(r.value[3..].iter().all(|b| *b == 0));
}

#[test]
fn property_bits_and_exclusion() {
    let p = CharacteristicProperties::new().read().notify().indicate();
    assert!(p.is_notify());
    assert!(!p.is_indicate());
    assert_eq!(p.to_bits(), 0x02 | 0x10);
    let q = CharacteristicProperties::new().indicate().notify().write().broadcast();
    assert_eq!(q.to_bits(), 0x20 | 0x08 | 0x01);
    assert!(q.is_writable());
}

#[test]
fn permission_bits() {
    let p = AttributePermissions::new();
    assert_eq!(p.to_bits(), 0);
    assert_eq!(p.read().to_bits(), 0x01);
    assert_eq!(p.read().write().to_bits(), 0x11);
    assert_eq!(p.write().encrypted().to_bits(), 0x20);
    assert_eq!(p.read().write().encrypted().to_bits(), 0x22);
    assert_eq!(control_code(true), ESP_GATT_RSP_BY_APP);
    assert_eq!(control_code(false), ESP_GATT_AUTO_RSP);
}

#[test]
fn cccd_keys_and_values() {
    let bda = [0xaa, 0xbb, 0x01, 0x02, 0x0c, 0xfd];
    assert_eq!(cccd_key(&bda, 0x2a), "01020CFD-002A");
    assert_eq!(cccd_status(&[0x01, 0x00]), (true, false));
    assert_eq!(cccd_status(&[0x02, 0x00]), (false, true));
    assert_eq!(cccd_status(&[0x03]), (true, true));
}

#[test]
fn cccd_store_reads_back_what_was_written() {
    let mut store = CccdStore::new();
    let a = [0, 0, 1, 2, 3, 4];
    let b = [9, 9, 1, 2, 3, 5];
    assert_eq!(store.get(&a, 10), vec![0, 0]);
    store.set(&a, 10, vec![1, 0]);
    store.set(&b, 10, vec![2, 0]);
    assert_eq!(store.get(&a, 10), vec![1, 0]);
    assert_eq!(store.get(&b, 10), vec![2, 0]);
    assert_eq!(store.get(&a, 11), vec![0, 0]);
    store.set(&a, 10, vec![0, 0]);
    assert_eq!(store.get(&a, 10), vec![0, 0]);
    assert_eq!(store.get(&b, 10), vec![2, 0]);
    // Bytes 0 and 1 of the address are not part of the key.
    assert_eq!(store.get(&[7, 7, 1, 2, 3, 5], 10), vec![2, 0]);
}

#[test]
fn connection_text() {
    let c = Connection::from_event(3, 1, [0x01, 0x23, 0x45, 0x67, 0x89, 0xab]);
    assert!(c.is_slave);
    assert_eq!(c.to_string(), "01:23:45:67:89:AB (3, slave: true)");
    let d = Connection::from_event(4, 0, [0x01, 0x23, 0x45, 0x67, 0x89, 0xab]);
    assert!(c.same_client(&d));
    assert_eq!(d.to_string(), "01:23:45:67:89:AB (4, slave: false)");
}

#[test]
fn server_configuration_before_start() {
    let mut s = GattServer::init();
    s.device_name("Sensor");
    s.appearance(0x0340);
    s.profile(profile());
    assert!(s.start());
    assert!(!s.start());
    s.profile(profile());
    assert_eq!(s.profiles().len(), 1);
    assert_eq!(s.get_profile(3), Some(0));
    assert_eq!(s.get_profile(4), None);
    assert_eq!(s.profiles_for(3), vec![0]);
    s.set_advertisement_configured();
    s.device_name("Other");
}

#[test]
fn connections_are_kept_once_per_client() {
    let mut s = GattServer::init();
    assert!(!s.is_client_connected());
    let a = Connection::from_event(1, 0, [1, 1, 1, 1, 1, 1]);
    let a2 = Connection::from_event(5, 0, [1, 1, 1, 1, 1, 1]);
    let b = Connection::from_event(2, 0, [2, 2, 2, 2, 2, 2]);
    s.on_connect(a);
    s.on_connect(a2);
    s.on_connect(b);
    assert!(s.is_client_connected());
    s.on_disconnect(a2);
    s.on_disconnect(b);
    assert!(!s.is_client_connected());
}

#[test]
fn value_changes_go_to_subscribed_clients() {
    let mut s = GattServer::init();
    s.profile(profile());
    s.on_connect(Connection::from_event(1, 0, [0, 0, 0, 0, 0, 1]));
    s.on_connect(Connection::from_event(2, 0, [0, 0, 0, 0, 0, 2]));
    s.on_connect(Connection::from_event(3, 0, [0, 0, 0, 0, 0, 3]));
    let read = |id: u16, _bda: [u8; 6], handle: u16| {
        assert!(handle == 43 || handle == 45);
        match id {
            1 => vec![0x01, 0x00],
            2 => vec![0x02, 0x00],
            _ => vec![0x00, 0x00],
        }
    };
    // A notifying characteristic: only the client that asked for notifications.
    assert_eq!(s.on_set_attr_val(3, 40, 42, &read), Some(vec![Notice { conn_id: 1, indicate: false }]));
    // An indicating characteristic: only the client that asked for indications.
    assert_eq!(s.on_set_attr_val(3, 40, 44, &read), Some(vec![Notice { conn_id: 2, indicate: true }]));
    // Unknown interface, service or attribute.
    assert_eq!(s.on_set_attr_val(9, 40, 42, &read), None);
    assert_eq!(s.on_set_attr_val(3, 41, 42, &read), None);
    assert_eq!(s.on_set_attr_val(3, 40, 99, &read), None);
}

#[test]
fn server_events_are_routed() {
    assert_eq!(route_gatts_event(14), GattsRoute::Server);
    assert_eq!(route_gatts_event(23), GattsRoute::Server);
    assert_eq!(route_gatts_event(0), GattsRoute::ServerThenProfiles);
    assert_eq!(route_gatts_event(1), GattsRoute::Profiles);
    assert_eq!(route_gatts_event(2), GattsRoute::Profiles);
}

#[test]
fn ble_stack_bring_up_stops_at_the_first_failure() {
    let seen = std::cell::RefCell::new(Vec::new());
    let run = |s: BleStackStep| {
        seen.borrow_mut().push(s);
        if s == BleStackStep::BluedroidEnable { -1 } else { 0 }
    };
    assert_eq!(initialise_ble_stack(&run).unwrap_err().code(), -1);
    assert_eq!(seen.borrow().len(), 5);
    assert!(initialise_ble_stack(&|_| 0).is_ok());
}

#[test]
fn characteristic_value_limits() {
    let mut v = CharacteristicValue::new();
    assert_eq!(v.attr_max_len(), 8);
    v.max_value_length(2);
    assert!(v.fits(&[1, 2, 3, 4]));
    assert_eq!(v.set_value(vec![1, 2, 3, 4]), None);
    let mut v = CharacteristicValue::new();
    assert_eq!(v.set_value(vec![1, 2, 3, 4]), None);
    assert_eq!(v.attr_max_len(), 4);
    v.registered(42);
    assert!(v.fits(&[5, 6]));
    assert!(v.fits(&[5, 6, 7, 8]));
    assert!(!v.fits(&[1, 2, 3, 4, 5]));
    assert_eq!(v.set_value(vec![5, 6]), Some(42));
    assert!(v.fits(&[1, 2, 3, 4]));
    v.max_value_length(8);
    assert_eq!(v.attr_max_len(), 8);
    assert!(!v.fits(&[0; 5]));
}

fn unregistered_profile() -> ProfileEntry {
    let pending = |u: u16| AttrEntry { uuid: AttrUuid::Uuid16(u), handle: None, has_write_callback: false, response_by_app: true };
    ProfileEntry {
        identifier: 7,
        interface: None,
        services: vec![ServiceEntry {
            uuid: AttrUuid::Uuid128(0x1234),
            handle: None,
            characteristics: vec![
                CharacteristicEntry { attr: pending(0x2A19), notify: true, indicate: false, descriptors: vec![pending(0x2902)] },
                CharacteristicEntry { attr: pending(0x2A1A), notify: false, indicate: true, descriptors: vec![pending(0x2902)] },
            ],
        }],
    }
}

#[test]
fn registration_records_handles_in_creation_order() {
    let mut p = unregistered_profile();
    assert!(!on_create(&mut p, AttrUuid::Uuid16(0x1234), 40, true));
    assert_eq!(p.services[0].handle, None);
    assert!(on_create(&mut p, AttrUuid::Uuid128(0x1234), 40, true));
    assert_eq!(p.services[0].handle, Some(40));
    assert_eq!(on_char_add(&mut p, 40, AttrUuid::Uuid16(0x2A1A), 44, true), Some((0, 1)));
    assert_eq!(p.services[0].characteristics[1].attr.handle, Some(44));
    assert_eq!(on_char_add(&mut p, 40, AttrUuid::Uuid16(0x2A19), 42, false), None);
    assert_eq!(p.services[0].characteristics[0].attr.handle, None);
    assert_eq!(on_char_add(&mut p, 41, AttrUuid::Uuid16(0x2A19), 42, true), None);
    // Two CCCDs share a UUID: they take handles in order.
    assert!(on_char_add_descr(&mut p, 40, AttrUuid::Uuid16(0x2902), 43, true));
    assert_eq!(p.services[0].characteristics[0].descriptors[0].handle, Some(43));
    assert!(on_char_add_descr(&mut p, 40, AttrUuid::Uuid16(0x2902), 45, true));
    assert_eq!(p.services[0].characteristics[1].descriptors[0].handle, Some(45));
    assert!(!on_char_add_descr(&mut p, 40, AttrUuid::Uuid16(0x2902), 47, true));
}

#[test]
fn profile_registration_configures_advertising_once() {
    let mut s = GattServer::init();
    s.profile(unregistered_profile());
    assert!(!s.on_reg(5, 7, false));
    assert_eq!(s.profiles()[0].interface, None);
    assert!(s.on_reg(5, 7, true));
    assert_eq!(s.profiles()[0].interface, Some(5));
    assert!(!s.on_reg(6, 7, true));
    assert_eq!(s.profiles()[0].interface, Some(6));
    assert!(starts_advertising(0));
    assert!(starts_advertising(1));
    assert!(!starts_advertising(6));
}

#[test]
fn callback_acceptance() {
    let rw = AttributePermissions::new().read().write();
    let props = CharacteristicProperties::new().read();
    assert!(accepts_read_callback(&props, &rw));
    assert!(!accepts_write_callback(&props, &rw));
    assert!(accepts_write_callback(&CharacteristicProperties::new().write_without_response(), &rw));
    assert!(!accepts_read_callback(&props, &AttributePermissions::new()));
    assert!(needs_cccd(&CharacteristicProperties::new().indicate()));
    assert!(!needs_cccd(&props));
    let v = CharacteristicValue::new();
    assert!(v.registrable(false));
}
