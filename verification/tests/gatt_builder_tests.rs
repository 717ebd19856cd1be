use esp_idf_svc::ble::{AttributePermissions, CharacteristicProperties};
use esp_idf_svc::gatt::{on_read, on_write, AttrRef, AttrUuid, Dispatch, ServiceEntry};
use esp_idf_svc::gatt_builder::{Characteristic, Descriptor, Profile};

#[test]
fn characteristic_callbacks_follow_properties_and_permissions() {
    let mut c = Characteristic::new(AttrUuid::Uuid16(0x2A6E));
    assert!(!c.on_read());
    assert!(!c.on_write());
    c.properties(CharacteristicProperties::new().read().write());
    c.permissions(AttributePermissions::new().read());
    assert!(c.on_read());
    assert!(!c.on_write());
    let e = c.entry();
    assert!(e.attr.response_by_app);
    assert!(!e.attr.has_write_callback);
    assert_eq!(e.attr.handle, None);
    assert!(!e.notify && !e.indicate);
}

#[test]
fn setting_a_value_answers_reads_automatically() {
    let mut c = Characteristic::new(AttrUuid::Uuid16(0x2A6E));
    c.properties(CharacteristicProperties::new().read());
    c.permissions(AttributePermissions::new().read());
    assert!(c.on_read());
    assert_eq!(c.set_value(vec![1, 2, 3]), None);
    assert!(!c.entry().attr.response_by_app);
    c.registered(0x2A);
    assert_eq!(c.set_value(vec![4, 5]), Some(0x2A));
    assert_eq!(c.entry().attr.handle, Some(0x2A));
}

#[test]
fn show_name_adds_a_user_description() {
    let mut c = Characteristic::new(AttrUuid::Uuid128(7));
    c.show_name();
    assert!(c.entry().descriptors.is_empty());
    c.name("Temperature");
    c.show_name();
    let ds = c.entry().descriptors;
    assert_eq!(ds.len(), 1);
    assert_eq!(ds[0].uuid, AttrUuid::Uuid16(0x2901));
    assert!(!ds[0].response_by_app && !ds[0].has_write_callback);
}

#[test]
fn descriptors_route_to_the_application() {
    let mut c = Characteristic::new(AttrUuid::Uuid16(0x2A37));
    c.properties(CharacteristicProperties::new().notify());
    let mut cccd = Descriptor::cccd();
    cccd.registered(44);
    c.descriptor(cccd);
    let e = c.entry();
    assert!(e.notify);
    assert_eq!(e.descriptors[0].uuid, AttrUuid::Uuid16(0x2902));
    assert!(e.descriptors[0].response_by_app && e.descriptors[0].has_write_callback);

    let mut p = Profile::new(3);
    p.name("Sensors");
    p.service(ServiceEntry { uuid: AttrUuid::Uuid16(0x181A), handle: Some(40), characteristics: vec![e] });
    let entry = p.build();
    assert_eq!(entry.identifier, 3);
    assert_eq!(entry.interface, None);
    assert_eq!(
        on_read(&entry, 44),
        vec![Dispatch { target: AttrRef { service: 0, characteristic: 0, descriptor: Some(0) }, respond: true }]
    );
    assert_eq!(
        on_write(&entry, 44, false),
        vec![Dispatch { target: AttrRef { service: 0, characteristic: 0, descriptor: Some(0) }, respond: false }]
    );
}

#[test]
fn descriptor_callbacks_follow_permissions() {
    let mut d = Descriptor::new(AttrUuid::Uuid16(0x2904));
    assert!(!d.on_read());
    assert!(!d.on_write());
    d.permissions(AttributePermissions::new().write());
    assert!(!d.on_read());
    assert!(d.on_write());
    assert_eq!(d.set_value(vec![9]), None);
    let e = d.entry();
    assert!(e.has_write_callback && !e.response_by_app);
    let u = Descriptor::user_description("Hi");
    assert_eq!(u.entry().uuid, AttrUuid::Uuid16(0x2901));
}
