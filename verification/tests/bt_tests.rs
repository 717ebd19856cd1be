use esp_idf_svc::bt::{
    Ble, BdAddr, BtCallback, BtClassic, BtDriver, BtDual, BtInitStep, BtMemory, BtMode, BtUuid,
    RawBtUuid, ESP_BT_MODE_BLE, ESP_BT_MODE_BTDM, ESP_BT_MODE_CLASSIC_BT,
};
use esp_idf_svc::error::ESP_ERR_INVALID_STATE;
use std::cell::RefCell;

#[test]
fn address_bytes() {
    let a = BdAddr([1, 2, 3, 4, 5, 6]);
    assert_eq!(a.raw(), [1, 2, 3, 4, 5, 6]);
}

#[test]
fn uuid_bytes_are_little_endian() {
    assert_eq!(BtUuid::uuid16(0x180F).as_bytes(), vec![0x0F, 0x18]);
    assert_eq!(BtUuid::uuid32(0x1234_5678).as_bytes(), vec![0x78, 0x56, 0x34, 0x12]);
    let u = BtUuid::uuid128(0x0102_0304_0506_0708_090A_0B0C_0D0E_0F10);
    assert_eq!(
        u.as_bytes(),
        vec![0x10, 0x0F, 0x0E, 0x0D, 0x0C, 0x0B, 0x0A, 0x09, 0x08, 0x07, 0x06, 0x05, 0x04, 0x03, 0x02, 0x01]
    );
    assert_eq!(u.raw().len, 128);
    assert_eq!(BtUuid::uuid16(0x2902).raw().uuid[2..], [0u8; 14]);
}

#[test]
fn uuid_equality_compares_identifying_bytes() {
    assert!(BtUuid::uuid16(0x2902).same_as(&BtUuid::uuid16(0x2902)));
    assert!(!BtUuid::uuid16(0x2902).same_as(&BtUuid::uuid16(0x2901)));
    assert!(!BtUuid::uuid16(0x2902).same_as(&BtUuid::uuid32(0x2902)));
}

#[test]
fn uuid_from_raw_checks_the_length() {
    assert!(BtUuid::from_raw(RawBtUuid { len: 16, uuid: [0; 16] }).is_some());
    assert!(BtUuid::from_raw(RawBtUuid { len: 24, uuid: [0; 16] }).is_none());
}

#[test]
fn callback_slot_set_clear_call() {
    let mut slot: BtCallback<fn(u32) -> u32, u32> = BtCallback::new(0);
    assert_eq!(slot.call(5), 0);
    assert!(slot.set(|x| x + 1).is_ok());
    assert!(slot.is_set());
    assert_eq!(slot.call(5), 6);
    assert_eq!(slot.set(|x| x).unwrap_err().code(), ESP_ERR_INVALID_STATE);
    assert!(slot.clear().is_ok());
    assert_eq!(slot.clear().unwrap_err().code(), ESP_ERR_INVALID_STATE);
    assert_eq!(slot.call(5), 0);
    assert!(slot.set(|x| x * 2).is_ok());
    assert_eq!(slot.call(5), 10);
}

#[test]
fn controller_modes() {
    assert_eq!(Ble::mode(), ESP_BT_MODE_BLE);
    assert_eq!(BtClassic::mode(), ESP_BT_MODE_CLASSIC_BT);
    assert_eq!(BtDual::mode(), ESP_BT_MODE_BTDM);
}

#[test]
fn memory_is_released_once() {
    let mut mem = BtMemory::new();
    let released = RefCell::new(Vec::new());
    let release = |mode: u32| {
        released.borrow_mut().push(mode);
        0
    };
    assert!(mem.reduce(&release).is_ok());
    assert_eq!(*released.borrow(), vec![ESP_BT_MODE_CLASSIC_BT]);
    assert_eq!(mem.reduce(&release).unwrap_err().code(), ESP_ERR_INVALID_STATE);
    assert_eq!(mem.free(&release).unwrap_err().code(), ESP_ERR_INVALID_STATE);
}

#[test]
fn failed_release_keeps_the_memory() {
    let mut mem = BtMemory::new();
    assert_eq!(mem.free(&|_| 0x103).unwrap_err().code(), 0x103);
    assert!(mem.free(&|_| 0).is_ok());
}

#[test]
fn driver_bring_up_runs_in_order_and_stops_at_a_failure() {
    let calls = RefCell::new(Vec::new());
    let ok = |s: BtInitStep| {
        calls.borrow_mut().push(s);
        0
    };
    assert!(BtDriver::<Ble>::new(false, &ok).is_ok());
    assert_eq!(
        *calls.borrow(),
        vec![
            BtInitStep::ControllerInit(ESP_BT_MODE_BLE),
            BtInitStep::ControllerEnable(ESP_BT_MODE_BLE),
            BtInitStep::BluedroidInit,
            BtInitStep::BluedroidEnable,
        ]
    );
    calls.borrow_mut().clear();
    let failing = |s: BtInitStep| {
        calls.borrow_mut().push(s);
        if s == BtInitStep::BluedroidInit { 0x105 } else { 0 }
    };
    let err = BtDriver::<BtClassic>::new(true, &failing).err().unwrap();
    assert_eq!(err.code(), 0x105);
    assert_eq!(calls.borrow().len(), 3);
}

#[test]
fn device_name_is_handed_on_unless_it_holds_nul() {
    let driver = BtDriver::<Ble>::new(false, &|_s: BtInitStep| 0).ok().unwrap();
    let seen = RefCell::new(Vec::<String>::new());
    let set = |n: &str| {
        seen.borrow_mut().push(n.to_string());
        0
    };
    assert!(driver.set_device_name("ESP32", &set).is_ok());
    assert_eq!(driver.set_device_name("a\0b", &set).err().unwrap().code(), 0x102);
    assert_eq!(*seen.borrow(), vec!["ESP32".to_string()]);
    assert_eq!(driver.set_device_name("x", &|_n: &str| 0x103).err().unwrap().code(), 0x103);
}
