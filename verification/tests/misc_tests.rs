use esp_idf_svc::audio::{
    a2dp_initialize, pcm_resample_check, resample_channels, sink_delay_value, volume_update, A2dpInitStep,
    Codec, Duplex, ResampleSource, Sink, Volume,
};
use esp_idf_svc::eth::{
    eth_phy_default_config, init_spi, stop_result, EthEvent, EthStatus, SpiEthChipset,
};
use esp_idf_svc::eventloop::{event_loop_args, Configuration, SystemLoop, TaskConfiguration};
use esp_idf_svc::fat::{
    drive_path_from, mkfs_params, FatCopies, FatFsType, FormatConfiguration, NonZero16, FM_ANY, FM_EXFAT,
};
use esp_idf_svc::gap::{
    appearance_of, bonded_list_len, c_str_bytes, discovery_stopped, Cod, GapEventKind, KeyMask,
};
use esp_idf_svc::nimble::{access, build_service_table, BleGattAccess, ServiceShape, SvcDefEntry};
use std::cell::RefCell;

#[test]
fn fat_copies_and_format_parameters() {
    assert_eq!(FatCopies::Single.copies(), 1);
    assert_eq!(FatFsType::Fat32(FatCopies::Two).copies(), 2);
    assert_eq!(FatFsType::ExFat.copies(), 1);
    let c = FormatConfiguration::new();
    let p = mkfs_params(&c);
    assert_eq!(p.fmt, FM_ANY);
    assert_eq!(p.n_fat, 1);
    assert_eq!(p.align, 1);
    assert_eq!(p.n_root, 512);
    assert_eq!(p.au_size, 4096);
    let ex = FormatConfiguration { fs_type: FatFsType::ExFat, ..c };
    assert_eq!(mkfs_params(&ex).fmt, FM_EXFAT);
    assert!(NonZero16::new(0).is_none());
    assert_eq!(NonZero16::new(7).unwrap().get(), 7);
    assert_eq!(drive_path_from(b'0'), [b'0', 0]);
}

#[test]
fn ethernet_status_follows_own_events() {
    let mut s = EthStatus::new(7);
    assert!(!s.is_started());
    s.on_event(&EthEvent::Started(7));
    assert!(s.is_started());
    assert!(!s.is_up());
    s.on_event(&EthEvent::Connected(8));
    assert!(!s.is_up());
    s.on_event(&EthEvent::Connected(7));
    assert!(s.is_up());
    s.on_event(&EthEvent::Disconnected(7));
    assert!(s.is_started());
    assert!(!s.is_up());
    s.on_event(&EthEvent::Stopped(7));
    assert!(!s.is_started());
    assert_eq!(EthEvent::from_event_id(2, 5), Some(EthEvent::Connected(5)));
    assert_eq!(EthEvent::from_event_id(9, 5), None);
}

#[test]
fn ethernet_configurations() {
    let phy = eth_phy_default_config(None, None);
    assert_eq!(phy.phy_addr, -1);
    assert_eq!(phy.reset_gpio_num, -1);
    let s = init_spi(SpiEthChipset::W5500, 20_000_000, 4, Some(5), Some(6), Some(1));
    assert_eq!((s.spi.command_bits, s.spi.address_bits), (16, 8));
    assert_eq!(s.spi.clock_speed_hz, 20_000_000);
    assert_eq!(s.spi.spics_io_num, 5);
    assert_eq!(s.spi.queue_size, 20);
    assert_eq!(s.phy.phy_addr, 1);
    assert_eq!(s.phy.reset_gpio_num, 6);
    assert_eq!(s.int_gpio_num, 4);
    assert_eq!(init_spi(SpiEthChipset::DM9051, 1, 0, None, None, None).spi.command_bits, 1);
    assert!(stop_result(0x103).is_ok());
    assert_eq!(stop_result(-1).unwrap_err().code(), -1);
}

#[test]
fn event_loop_arguments() {
    let c = Configuration::new();
    let a = event_loop_args(&c);
    assert_eq!(a.queue_size, 1000);
    assert_eq!(a.task_name, None);
    let t = TaskConfiguration { pin_to_core: Some(1), ..TaskConfiguration::new() };
    let a = event_loop_args(&Configuration { queue_size: 32, task_configuration: Some(t) });
    assert_eq!(a.task_name, Some("(unknown)"));
    assert_eq!(a.task_stack_size, 3072);
    assert_eq!(a.task_core_id, 1);
}

#[test]
fn system_loop_is_created_once() {
    let mut l = SystemLoop::new();
    assert!(l.take(&|| 0).is_ok());
    assert_eq!(l.take(&|| 0).unwrap_err().code(), 0x103);
    l.release();
    assert_eq!(l.take(&|| 0x101).unwrap_err().code(), 0x101);
    assert!(l.take(&|| 0).is_ok());
}

#[test]
fn class_of_device_fields() {
    let c = Cod::new(0x05, 0x10, 0x100);
    assert_eq!(c.major(), 0x05);
    assert_eq!(c.minor(), 0x10);
    assert_eq!(c.service(), 0x100);
    assert_eq!(c.raw(), (0x10 << 2) | (0x05 << 8) | (0x100 << 13));
    assert!(c.same_as(&Cod::from_raw(c.raw() | 0x3)));
    assert_eq!(Cod::new(0xff, 0, 0).major(), 0x1f);
}

#[test]
fn gap_helpers() {
    assert_eq!(GapEventKind::from_code(0), GapEventKind::DeviceDiscovered);
    assert_eq!(GapEventKind::from_code(17), GapEventKind::AclDisconnected);
    assert_eq!(GapEventKind::from_code(18), GapEventKind::Other);
    assert!(discovery_stopped(0));
    assert!(!discovery_stopped(1));
    assert_eq!(c_str_bytes(b"phone\0junk"), b"phone".to_vec());
    assert_eq!(bonded_list_len(3, 10), 3);
    assert_eq!(bonded_list_len(12, 10), 10);
    assert_eq!(KeyMask::EncryptionKey.union(KeyMask::LinkKey), KeyMask::Inner1001);
    assert_eq!(KeyMask::from_bits(0b0110), None);
    assert_eq!(appearance_of(3), 3 << 6);
}

#[test]
fn sbc_configuration() {
    let c = Codec::from_raw(0, &[0x21, 0, 0, 0, 0, 0, 0]);
    assert_eq!(c.bitrate(), Some(44100));
    assert_eq!(c.stereo(), Some(true));
    let m = Codec::from_raw(0, &[0x48, 0, 0, 0, 0, 0, 0]);
    assert_eq!(m.bitrate(), Some(32000));
    assert_eq!(m.stereo(), Some(false));
    assert_eq!(Codec::from_raw(2, &[0; 7]).bitrate(), None);
    assert_eq!(Codec::from_raw(0, &[0; 7]).bitrate(), Some(16000));
}

#[test]
fn a2dp_bring_up() {
    let seen = RefCell::new(Vec::new());
    let run = |s: A2dpInitStep| {
        seen.borrow_mut().push(s);
        0
    };
    assert!(a2dp_initialize::<Sink, _>(&run).is_ok());
    assert_eq!(
        *seen.borrow(),
        vec![A2dpInitStep::RegisterCallback, A2dpInitStep::RegisterSinkData, A2dpInitStep::SinkInit]
    );
    seen.borrow_mut().clear();
    assert!(a2dp_initialize::<Duplex, _>(&run).is_ok());
    assert_eq!(seen.borrow().len(), 5);
    assert_eq!(sink_delay_value(12_345), 123);
}

#[test]
fn hands_free_helpers() {
    assert_eq!(volume_update(Volume::Speaker(7)), (0, 7));
    assert_eq!(volume_update(Volume::Microphone(3)), (1, 3));
    assert_eq!(resample_channels(&ResampleSource { sample_rate_hz: 8000, bits_per_sample: 16, stereo: true }), 2);
    assert_eq!(pcm_resample_check(false, 1, 1).unwrap_err().code(), 0x103);
    assert_eq!(pcm_resample_check(true, 4, 2).unwrap_err().code(), 0x102);
    assert!(pcm_resample_check(true, 4, 4).is_ok());
}

#[test]
fn nimble_access_and_tables() {
    let handler = |a: BleGattAccess| match a {
        BleGattAccess::Read { attr_handle, .. } => attr_handle as i32,
        BleGattAccess::Write { data, .. } => 100 + data.len() as i32,
    };
    assert_eq!(access(0, 1, 17, vec![], &handler), 17);
    assert_eq!(access(1, 1, 17, vec![1, 2], &handler), 102);
    assert_eq!(access(2, 1, 17, vec![], &handler), 0x0e);
    let t = build_service_table(&vec![
        ServiceShape { primary: true, characteristics: 2 },
        ServiceShape { primary: false, characteristics: 0 },
    ]);
    assert_eq!(
        t,
        vec![
            SvcDefEntry { svc_type: 1, chr_entries: 3 },
            SvcDefEntry { svc_type: 2, chr_entries: 1 },
            SvcDefEntry { svc_type: 0, chr_entries: 0 },
        ]
    );
}
