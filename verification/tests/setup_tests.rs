use esp_idf_svc::ble::cccd_stored_answer;
use esp_idf_svc::gatt::{read_event_for_write, WriteEvent};
use esp_idf_svc::gatt_server::local_mtu_accepted;
use esp_idf_svc::audio::{
    a2dp_teardown, hfpc_initialize, hfpc_teardown, A2dpDeinitStep, HfpcDeinitStep, HfpcInitStep, Sink,
};
use esp_idf_svc::ble::{AttributePermissions, CharacteristicProperties};
use esp_idf_svc::bt::BtUuid;
use esp_idf_svc::eth::{
    init, init_rmii, EthInitStep, RmiiClockConfig, RmiiEthChipset, EMAC_CLK_EXT_IN, EMAC_CLK_OUT,
};
use esp_idf_svc::gap::{
    fixed_pin_len, passkey_reply, pin_reply, set_security_conf, DevicePropKind, EirFlags, IOCapabilities, KeyMask, SecurityConfiguration,
    SecurityParam,
};
use esp_idf_svc::gatt_server::{
    profile_event, register_characteristic, user_description, CharacteristicValue, DescriptorValue,
    GattServer, ProfileEvent, USER_DESCRIPTION_UUID16,
};
use esp_idf_svc::http::{
    detached_frame_status, detached_send_result, error_page, HandlerRegistry, Registration,
};
use esp_idf_svc::httpd::fetched_value;
use esp_idf_svc::tls::{apply_selection, cert_select_precheck, HandshakeStep, SelectionShape};
use std::cell::RefCell;

#[test]
fn profile_events_are_classified() {
    assert_eq!(profile_event(0), ProfileEvent::Registered);
    assert_eq!(profile_event(7), ProfileEvent::ServiceCreated);
    assert_eq!(profile_event(12), ProfileEvent::ServiceStarted);
    assert_eq!(profile_event(9), ProfileEvent::CharacteristicAdded);
    assert_eq!(profile_event(10), ProfileEvent::DescriptorAdded);
    assert_eq!(profile_event(2), ProfileEvent::Written);
    assert_eq!(profile_event(1), ProfileEvent::Read);
    assert_eq!(profile_event(5), ProfileEvent::Confirmed);
    assert_eq!(profile_event(14), ProfileEvent::Unhandled);
}

#[test]
fn rmii_clock_and_setup() {
    let c = RmiiClockConfig::Input.eth_mac_clock_config();
    assert_eq!((c.clock_mode, c.clock_gpio), (EMAC_CLK_EXT_IN, 0));
    let c = RmiiClockConfig::OutputGpio16.eth_mac_clock_config();
    assert_eq!((c.clock_mode, c.clock_gpio), (EMAC_CLK_OUT, 16));
    let c = RmiiClockConfig::OutputInvertedGpio17.eth_mac_clock_config();
    assert_eq!((c.clock_mode, c.clock_gpio), (EMAC_CLK_OUT, 17));
    let s = init_rmii(23, 18, RmiiClockConfig::OutputGpio0, Some(5), RmiiEthChipset::LAN87XX, None);
    assert_eq!(s.emac.smi_mdc_gpio_num, 23);
    assert_eq!(s.emac.smi_mdio_gpio_num, 18);
    assert_eq!((s.clock.clock_mode, s.clock.clock_gpio), (EMAC_CLK_OUT, 0));
    assert_eq!(s.phy.phy_addr, -1);
    assert_eq!(s.phy.reset_gpio_num, 5);
    assert_eq!(s.chipset, RmiiEthChipset::LAN87XX);
}

#[test]
fn eth_driver_bring_up_sets_the_mac_only_when_given() {
    let seen = RefCell::new(Vec::new());
    let run = |s: EthInitStep| {
        seen.borrow_mut().push(format!("{:?}", s));
        0
    };
    assert!(init(Some([1, 2, 3, 4, 5, 6]), &run).is_ok());
    assert_eq!(seen.borrow().len(), 3);
    assert_eq!(seen.borrow()[1], "SetMacAddress([1, 2, 3, 4, 5, 6])");
    seen.borrow_mut().clear();
    assert!(init(None, &run).is_ok());
    assert_eq!(*seen.borrow(), vec!["InstallDriver".to_string(), "Subscribe".to_string()]);

    let failing = |s: EthInitStep| match s {
        EthInitStep::SetMacAddress(_) => 0x102,
        _ => 0,
    };
    assert_eq!(init(Some([0; 6]), &failing).unwrap_err().code(), 0x102);
}

#[test]
fn hands_free_bring_up() {
    let seen = RefCell::new(Vec::new());
    let run = |s: HfpcInitStep| {
        seen.borrow_mut().push(s);
        0
    };
    assert!(hfpc_initialize(true, &run).is_ok());
    assert_eq!(
        *seen.borrow(),
        vec![HfpcInitStep::ClientInit, HfpcInitStep::RegisterCallback, HfpcInitStep::RegisterDataCallbacks]
    );
    let fail = |s: HfpcInitStep| if s == HfpcInitStep::RegisterCallback { -1 } else { 0 };
    assert_eq!(hfpc_initialize(false, &fail).unwrap_err().code(), -1);
}

#[test]
fn security_parameters_in_order() {
    let conf = SecurityConfiguration {
        io_capabilities: IOCapabilities::NoInputNoOutput,
        initiator_key: Some(KeyMask::Inner0011),
        static_passkey: Some(123456),
        enable_oob: true,
        ..SecurityConfiguration::default()
    };
    let seen = RefCell::new(Vec::new());
    let set = |p: SecurityParam| {
        seen.borrow_mut().push(p);
        0
    };
    assert!(set_security_conf(&conf, &set).is_ok());
    assert_eq!(
        *seen.borrow(),
        vec![
            SecurityParam::IoCapMode(3),
            SecurityParam::InitiatorKey(0b0011),
            SecurityParam::StaticPasskey(123456),
            SecurityParam::OnlyAcceptSpecifiedAuth(false),
            SecurityParam::OobSupport(true),
        ]
    );
    let refuse = |p: SecurityParam| if p == SecurityParam::StaticPasskey(123456) { 0x103 } else { 0 };
    assert_eq!(set_security_conf(&conf, &refuse).unwrap_err().code(), 0x103);
}

#[test]
fn eir_flags_and_device_properties() {
    let f = EirFlags::from_repr(0b00110);
    assert!(!f.limit_disc && f.gen_disc && f.bredr_not_spt && !f.dmt_controller_spt && !f.dmt_host_spt);
    assert_eq!(f.as_repr(), 0b00110);
    assert_eq!(EirFlags::from_repr(31).as_repr(), 31);
    assert_eq!(DevicePropKind::from_code(1), Some(DevicePropKind::BdName));
    assert_eq!(DevicePropKind::from_code(4), Some(DevicePropKind::Eir));
    assert_eq!(DevicePropKind::from_code(9), None);
}

#[test]
fn descriptor_values_and_user_description() {
    let mut d = DescriptorValue::new();
    assert_eq!(*d.bytes(), vec![0u8]);
    assert_eq!(d.set_value(vec![1, 2, 3]), None);
    d.registered(40);
    assert_eq!(d.set_value(vec![9; 300]), Some(40));
    assert_eq!(d.attr_len(), 300);
    let (uuid, perms, v) = user_description("Temp");
    assert_eq!(uuid, USER_DESCRIPTION_UUID16);
    assert!(perms.read_access && !perms.write_access);
    assert_eq!(*v.bytes(), b"Temp".to_vec());
}

#[test]
fn characteristic_registration_plan() {
    let fresh = CharacteristicValue::new();
    let p = register_characteristic(&fresh, &CharacteristicProperties::new().read(), &AttributePermissions::new().read(), false);
    assert_eq!((p.attr_len, p.attr_max_len), (1, 8));
    let mut v = CharacteristicValue::new();
    v.set_value(vec![1, 2, 3, 4]);
    let props = CharacteristicProperties::new().read().notify();
    let perms = AttributePermissions::new().read();
    let p = register_characteristic(&v, &props, &perms, false);
    assert_eq!(p.attr_len, 4);
    assert_eq!(p.attr_max_len, 4);
    assert!(p.with_cccd);
    assert_eq!(p.property, 0x02 | 0x10);
    assert_eq!(p.perm, 0x01);
    v.max_value_length(20);
    let p = register_characteristic(&v, &CharacteristicProperties::new().read(), &perms, false);
    assert_eq!(p.attr_max_len, 20);
    assert!(!p.with_cccd);
}

#[test]
fn gatt_server_advertising_defaults() {
    let mut s = GattServer::init();
    let p = s.advertisement_parameters();
    assert_eq!((p.adv_int_min, p.adv_int_max, p.channel_map), (0x20, 0x40, 7));
    let a = s.advertisement_data();
    assert!(!a.set_scan_rsp && a.include_name && a.include_txpower);
    assert_eq!(a.flag, 0x06);
    assert_eq!((a.min_interval, a.max_interval), (6, 16));
    s.appearance(0x0341);
    s.advertise_service(&BtUuid::uuid16(0x180F));
    let r = s.scan_response_data();
    assert!(r.set_scan_rsp && !r.include_name);
    assert_eq!(r.appearance, 0x0341);
    assert_eq!(r.service_uuid_len, 16);
    assert_eq!(
        s.advertised_uuid(),
        Some([0xFB, 0x34, 0x9B, 0x5F, 0x80, 0x00, 0x00, 0x80, 0x00, 0x10, 0x00, 0x00, 0x0F, 0x18, 0, 0])
    );
    let first = GattServer::init();
    assert!(first.advertised_uuid().is_none());
    assert_eq!(first.scan_response_data().service_uuid_len, 0);
    let u = BtUuid::uuid128(0x0102030405060708090a0b0c0d0e0f10);
    s.advertise_service(&u);
    assert_eq!(s.advertised_uuid(), Some([0x10, 0x0f, 0x0e, 0x0d, 0x0c, 0x0b, 0x0a, 9, 8, 7, 6, 5, 4, 3, 2, 1]));
}

#[test]
fn detached_sends() {
    let calls = RefCell::new(0);
    let send = || {
        *calls.borrow_mut() += 1;
        0
    };
    assert_eq!(detached_frame_status(true, &send), -1);
    assert_eq!(*calls.borrow(), 0);
    assert_eq!(detached_frame_status(false, &send), 0);
    assert_eq!(*calls.borrow(), 1);
    assert_eq!(detached_send_result(true, 0, 0).unwrap_err().code(), -1);
    assert_eq!(detached_send_result(false, 0x103, 0).unwrap_err().code(), 0x103);
    assert_eq!(detached_send_result(false, 0, 0x105).unwrap_err().code(), 0x105);
    assert!(detached_send_result(false, 0, 0).is_ok());
}

#[test]
fn error_page_holds_both_renderings() {
    let page = error_page("boom", "Boom(3)");
    assert!(page.contains("<h1>INTERNAL ERROR</h1>"));
    assert!(page.contains("<h2>boom</h2>"));
    assert!(page.contains("<pre>Boom(3)</pre>"));
    assert!(page.starts_with("\n                    <!DOCTYPE html5>"));
}

#[test]
fn fetched_values_leave_out_the_terminator() {
    assert_eq!(fetched_value(0, b"\0"), None);
    assert_eq!(fetched_value(3, b"a=1\0"), Some(b"a=1".to_vec()));
}

#[test]
fn stopping_unregisters_newest_first() {
    let mut r = HandlerRegistry::new();
    assert!(r.register(Registration { key: 1, method: 1 }, 0).is_ok());
    assert!(r.register(Registration { key: 2, method: 3 }, 0).is_ok());
    assert_eq!(r.register(Registration { key: 3, method: 1 }, 0x103).unwrap_err().code(), 0x103);
    assert_eq!(r.registrations().len(), 2);
    let order = RefCell::new(Vec::new());
    let unregister = |x: Registration| {
        order.borrow_mut().push(x.key);
        0
    };
    assert!(r.stop(&unregister, &|| 0).is_ok());
    assert_eq!(*order.borrow(), vec![2, 1]);
    assert!(r.registrations().is_empty());
    assert!(!r.is_running());

    let mut r = HandlerRegistry::new();
    r.register(Registration { key: 1, method: 1 }, 0).unwrap();
    r.register(Registration { key: 2, method: 1 }, 0).unwrap();
    let refuse_newest = |x: Registration| if x.key == 2 { 0x102 } else { 0 };
    assert_eq!(r.stop(&refuse_newest, &|| 0).unwrap_err().code(), 0x102);
    assert_eq!(r.registrations().len(), 1);
    assert!(r.is_running());
    assert_eq!(r.stop(&unregister, &|| -1).unwrap_err().code(), -1);
    assert!(r.registrations().is_empty());
    assert!(r.is_running());
}

#[test]
fn certificate_selection_is_applied_in_order() {
    let seen = RefCell::new(Vec::new());
    let run = |s: HandshakeStep| {
        seen.borrow_mut().push(s);
        0
    };
    let sel = SelectionShape { server_certificate: true, certificate_authority: true, verify_mode: Some(2) };
    assert_eq!(apply_selection(sel, &run), 0);
    assert_eq!(
        *seen.borrow(),
        vec![
            HandshakeStep::CheckPair,
            HandshakeStep::SetOwnCert,
            HandshakeStep::SetCaChain,
            HandshakeStep::SetAuthmode(2)
        ]
    );
    seen.borrow_mut().clear();
    let mismatch = |s: HandshakeStep| {
        seen.borrow_mut().push(s);
        if s == HandshakeStep::CheckPair { -0x3f00 } else { 0 }
    };
    assert_eq!(apply_selection(sel, &mismatch), -0x3f00);
    assert_eq!(*seen.borrow(), vec![HandshakeStep::CheckPair]);
    let only_ca = SelectionShape { server_certificate: false, certificate_authority: true, verify_mode: None };
    seen.borrow_mut().clear();
    assert_eq!(apply_selection(only_ca, &run), 0);
    assert_eq!(*seen.borrow(), vec![HandshakeStep::SetCaChain]);
    assert_eq!(cert_select_precheck(false, true), Some(0x102));
    assert_eq!(cert_select_precheck(true, true), None);
}

#[test]
fn pairing_reply_arguments() {
    assert_eq!(pin_reply(Some(&[1, 2, 3, 4])), (true, 4));
    assert_eq!(pin_reply(None), (false, 0));
    assert_eq!(passkey_reply(Some(123456)), (true, 123456));
    assert_eq!(passkey_reply(None), (false, 0));
    assert_eq!(fixed_pin_len("1234"), 4);
    assert_eq!(fixed_pin_len("\u{e9}"), 2);
}

#[test]
fn teardowns_undo_the_bring_ups() {
    assert_eq!(
        a2dp_teardown::<Sink>(true),
        vec![A2dpDeinitStep::UnregisterCallback, A2dpDeinitStep::UnregisterSinkData, A2dpDeinitStep::SinkDeinit]
    );
    assert!(a2dp_teardown::<Sink>(false).is_empty());
    assert_eq!(
        hfpc_teardown(true, true, true),
        vec![
            HfpcDeinitStep::ResampleDeinit,
            HfpcDeinitStep::UnregisterDataCallbacks,
            HfpcDeinitStep::UnregisterCallback,
            HfpcDeinitStep::ClientDeinit
        ]
    );
    assert_eq!(hfpc_teardown(true, false, true), vec![HfpcDeinitStep::UnregisterCallback, HfpcDeinitStep::ClientDeinit]);
    assert!(hfpc_teardown(false, true, true).is_empty());
}

#[test]
fn mtu_bounds_and_stored_cccd_answers() {
    assert!(!local_mtu_accepted(23));
    assert!(local_mtu_accepted(24));
    assert!(local_mtu_accepted(517));
    assert!(!local_mtu_accepted(518));
    assert_eq!(cccd_stored_answer(Some(&[1, 0])), vec![1, 0]);
    assert_eq!(cccd_stored_answer(None), vec![0, 0]);
}

#[test]
fn write_responses_read_with_the_write_event() {
    let w = WriteEvent {
        conn_id: 3,
        trans_id: 77,
        bda: [1, 2, 3, 4, 5, 6],
        handle: 42,
        offset: 5,
        need_rsp: true,
        is_prep: true,
    };
    let r = read_event_for_write(&w);
    assert_eq!((r.conn_id, r.trans_id, r.bda, r.handle, r.offset), (3, 77, [1, 2, 3, 4, 5, 6], 42, 5));
    assert!(r.need_rsp && !r.is_long);
}
