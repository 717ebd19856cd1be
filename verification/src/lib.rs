//! Verified core of a service layer for ESP-IDF: the byte formats, state
//! machines, configuration mappings and decision logic behind the Bluetooth,
//! BLE GATT, HTTP, DNS, Ethernet, event loop, FAT and logging services.
//!
//! The native SDK calls themselves are made by the embedding application; the
//! functions here compute what to hand to them and what to do with what they
//! return.

pub mod error;
pub mod dns;
pub mod text;
pub mod logging;
pub mod sequence;
pub mod bt;
pub mod fat;
pub mod gatt;
pub mod ble;
pub mod gatt_server;
pub mod gatt_builder;
pub mod nimble;
pub mod cookies;
pub mod http;
pub mod eth;
pub mod eventloop;
pub mod gap;
pub mod audio;
pub mod httpd;
pub mod lwip;
pub mod tls;
pub mod gatt_registry;
