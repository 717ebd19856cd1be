//! Ethernet: the driver's link status as events move it, the events
//! themselves, and the MAC, PHY and SPI configurations a driver is brought
//! up with.

use vstd::prelude::*;

use crate::error::{EspError, ESP_ERR_INVALID_STATE, ESP_OK};
use crate::sequence::{ran_until_failure, run_result, run_steps};

verus! {

// ---------------------------------------------------------------------------
// Events and status
// ---------------------------------------------------------------------------

/// Native event id: the driver started.
pub const ETHERNET_EVENT_START: u32 = 0;
/// Native event id: the driver stopped.
pub const ETHERNET_EVENT_STOP: u32 = 1;
/// Native event id: the link came up.
pub const ETHERNET_EVENT_CONNECTED: u32 = 2;
/// Native event id: the link went down.
pub const ETHERNET_EVENT_DISCONNECTED: u32 = 3;

/// An Ethernet event and the handle of the driver it is for.
#[derive(Debug, Clone, Copy, PartialEq, Eq, Structural)]
pub enum EthEvent {
    Started(u32),
    Stopped(u32),
    Connected(u32),
    Disconnected(u32),
}

impl EthEvent {
    /// The handle of the driver the event is for.
    pub open spec fn spec_handle(self) -> u32 {
        match self {
            EthEvent::Started(h) => h,
            EthEvent::Stopped(h) => h,
            EthEvent::Connected(h) => h,
            EthEvent::Disconnected(h) => h,
        }
    }

    /// The handle of the driver the event is for.
    pub fn handle(&self) -> (h: u32)
        ensures
            h == self.spec_handle(),
    {
        match self {
            EthEvent::Started(h) => *h,
            EthEvent::Stopped(h) => *h,
            EthEvent::Connected(h) => *h,
            EthEvent::Disconnected(h) => *h,
        }
    }

    /// Whether the event is for the driver with `handle`.
    pub fn is_for_handle(&self, handle: u32) -> (b: bool)
        ensures
            b == (self.spec_handle() == handle),
    {
        self.handle() == handle
    }

    /// The event with native id `event_id` for the driver `handle`; `None`
    /// for an id that is not an Ethernet event.
    pub fn from_event_id(event_id: u32, handle: u32) -> (e: Option<EthEvent>)
        ensures
            event_id == ETHERNET_EVENT_START ==> e == Some(EthEvent::Started(handle)),
            event_id == ETHERNET_EVENT_STOP ==> e == Some(EthEvent::Stopped(handle)),
            event_id == ETHERNET_EVENT_CONNECTED ==> e == Some(EthEvent::Connected(handle)),
            event_id == ETHERNET_EVENT_DISCONNECTED ==> e == Some(EthEvent::Disconnected(handle)),
            event_id > ETHERNET_EVENT_DISCONNECTED ==> e is None,
    {
        if event_id == ETHERNET_EVENT_START {
            Some(EthEvent::Started(handle))
        } else if event_id == ETHERNET_EVENT_STOP {
            Some(EthEvent::Stopped(handle))
        } else if event_id == ETHERNET_EVENT_CONNECTED {
            Some(EthEvent::Connected(handle))
        } else if event_id == ETHERNET_EVENT_DISCONNECTED {
            Some(EthEvent::Disconnected(handle))
        } else {
            None
        }
    }
}

/// Something that owns a native handle.
pub trait RawHandle {
    /// The native handle's type.
    type Handle;

    /// The handle owned, as a specification.
    spec fn spec_raw_handle(&self) -> Self::Handle;

    /// The handle owned.
    fn handle(&self) -> (h: Self::Handle)
        ensures
            h == self.spec_raw_handle();
}

impl EthEvent {
    /// Whether the event is for the driver that owns `raw_handle`.
    pub fn is_for<R: RawHandle<Handle = u32>>(&self, raw_handle: &R) -> (b: bool)
        ensures
            b == (self.spec_handle() == raw_handle.spec_raw_handle()),
    {
        self.is_for_handle(raw_handle.handle())
    }
}

/// Where a driver's link is.
#[derive(Debug, Clone, Copy, PartialEq, Eq, Structural)]
pub enum Status {
    Stopped,
    Started,
    Connected,
    Disconnected,
}

/// The status after `event`: an event for the driver `handle` sets the
/// status it names; an event for another driver changes nothing.
pub open spec fn status_after(status: Status, handle: u32, event: EthEvent) -> Status {
    if event.spec_handle() != handle {
        status
    } else {
        match event {
            EthEvent::Started(_) => Status::Started,
            EthEvent::Stopped(_) => Status::Stopped,
            EthEvent::Connected(_) => Status::Connected,
            EthEvent::Disconnected(_) => Status::Disconnected,
        }
    }
}

/// The link status of one driver, as the event loop reports it.
pub struct EthStatus {
    handle: u32,
    status: Status,
}

impl EthStatus {
    /// The driver's handle.
    pub closed spec fn spec_handle(self) -> u32 {
        self.handle
    }

    /// The current status.
    pub closed spec fn spec_status(self) -> Status {
        self.status
    }

    /// A stopped driver with `handle`.
    pub fn new(handle: u32) -> (s: Self)
        ensures
            s.spec_handle() == handle,
            s.spec_status() == Status::Stopped,
    {
        EthStatus { handle, status: Status::Stopped }
    }

    /// Takes an event into account (see `status_after`).
    pub fn on_event(&mut self, event: &EthEvent)
        ensures
            final(self).spec_handle() == old(self).spec_handle(),
            final(self).spec_status() == status_after(old(self).spec_status(), old(self).spec_handle(), *event),
    {
        if event.is_for_handle(self.handle) {
            self.status = match event {
                EthEvent::Started(_) => Status::Started,
                EthEvent::Stopped(_) => Status::Stopped,
                EthEvent::Connected(_) => Status::Connected,
                EthEvent::Disconnected(_) => Status::Disconnected,
            };
        }
    }

    /// Whether the driver is started: started, or with its link up or down.
    pub fn is_started(&self) -> (b: bool)
        ensures
            b == (self.spec_status() != Status::Stopped),
    {
        match self.status {
            Status::Stopped => false,
            _ => true,
        }
    }

    /// Whether the link is up.
    pub fn is_up(&self) -> (b: bool)
        ensures
            b == (self.spec_status() == Status::Connected),
    {
        match self.status {
            Status::Connected => true,
            _ => false,
        }
    }
}

impl RawHandle for EthStatus {
    type Handle = u32;

    open spec fn spec_raw_handle(&self) -> u32 {
        self.spec_handle()
    }

    fn handle(&self) -> (h: u32) {
        self.handle
    }
}

/// The link is up exactly after a connection event for the driver, until
/// the next event for it; events for other drivers leave it as it is.
pub proof fn lemma_link_follows_events(status: Status, handle: u32, event: EthEvent)
    ensures
        event.spec_handle() == handle ==> (status_after(status, handle, event) == Status::Connected <==> event is Connected),
        event.spec_handle() != handle ==> status_after(status, handle, event) == status,
        event.spec_handle() == handle && event is Stopped ==> status_after(status, handle, event) == Status::Stopped,
{
}

/// The outcome of a stop request with native status `code`: an
/// invalid-state status (the driver was already stopped) counts as success.
pub fn stop_result(code: i32) -> (r: Result<(), EspError>)
    ensures
        (code == ESP_OK || code == ESP_ERR_INVALID_STATE) ==> r is Ok,
        (code != ESP_OK && code != ESP_ERR_INVALID_STATE) ==> (r matches Err(e) && e.spec_code() == code),
{
    if code == ESP_OK || code == ESP_ERR_INVALID_STATE {
        Ok(())
    } else {
        Err(EspError::from_non_zero(code))
    }
}

// ---------------------------------------------------------------------------
// Configurations
// ---------------------------------------------------------------------------

/// PHY address meaning "detect it".
pub const ESP_ETH_PHY_ADDR_AUTO: i32 = -1;

/// The driver configuration fields set besides the MAC and PHY.
#[derive(Debug, Clone, Copy, PartialEq, Eq, Structural)]
pub struct EthConfig {
    pub check_link_period_ms: u32,
}

/// The default driver configuration: the link is checked every 2 seconds.
pub fn eth_default_config() -> (c: EthConfig)
    ensures
        c.check_link_period_ms == 2000,
{
    EthConfig { check_link_period_ms: 2000 }
}

/// A PHY configuration (`eth_phy_config_t`).
#[derive(Debug, Clone, Copy, PartialEq, Eq, Structural)]
pub struct PhyConfig {
    pub phy_addr: i32,
    pub reset_timeout_ms: u32,
    pub autonego_timeout_ms: u32,
    pub reset_gpio_num: i32,
}

/// The default PHY configuration: the given address or detection, 100 ms
/// reset and 4 s auto-negotiation timeouts, and the given reset pin or none.
pub fn eth_phy_default_config(reset_pin: Option<i32>, phy_addr: Option<u32>) -> (c: PhyConfig)
    ensures
        c.phy_addr == match phy_addr {
            Some(a) => a as i32,
            None => ESP_ETH_PHY_ADDR_AUTO,
        },
        c.reset_timeout_ms == 100,
        c.autonego_timeout_ms == 4000,
        c.reset_gpio_num == match reset_pin {
            Some(p) => p,
            None => -1i32,
        },
{
    let addr = match phy_addr {
        Some(a) => a as i32,
        None => ESP_ETH_PHY_ADDR_AUTO,
    };
    let rst = match reset_pin {
        Some(p) => p,
        None => -1,
    };
    PhyConfig { phy_addr: addr, reset_timeout_ms: 100, autonego_timeout_ms: 4000, reset_gpio_num: rst }
}

/// A MAC configuration (`eth_mac_config_t`).
#[derive(Debug, Clone, Copy, PartialEq, Eq, Structural)]
pub struct MacConfig {
    pub sw_reset_timeout_ms: u32,
    pub rx_task_stack_size: u32,
    pub rx_task_prio: u32,
    pub flags: u32,
}

/// The default MAC configuration: 100 ms reset timeout, a 2 KiB receive task
/// of priority 15, no flags.
pub fn eth_mac_default_config() -> (c: MacConfig)
    ensures
        c == (MacConfig { sw_reset_timeout_ms: 100, rx_task_stack_size: 2048, rx_task_prio: 15, flags: 0 }),
{
    MacConfig { sw_reset_timeout_ms: 100, rx_task_stack_size: 2048, rx_task_prio: 15, flags: 0 }
}

/// The internal EMAC's pins and data interface (RMII).
#[derive(Debug, Clone, Copy, PartialEq, Eq, Structural)]
pub struct Esp32EmacConfig {
    pub smi_mdc_gpio_num: i32,
    pub smi_mdio_gpio_num: i32,
    pub rmii: bool,
}

/// The internal EMAC's configuration for the given management pins, on the
/// RMII interface.
pub fn eth_esp32_emac_default_config(mdc: i32, mdio: i32) -> (c: Esp32EmacConfig)
    ensures
        c == (Esp32EmacConfig { smi_mdc_gpio_num: mdc, smi_mdio_gpio_num: mdio, rmii: true }),
{
    Esp32EmacConfig { smi_mdc_gpio_num: mdc, smi_mdio_gpio_num: mdio, rmii: true }
}

/// An SPI Ethernet controller.
#[derive(Debug, Clone, Copy, PartialEq, Eq, Structural)]
pub enum SpiEthChipset {
    DM9051,
    W5500,
    KSZ8851SNL,
}

/// An SPI device configuration (`spi_device_interface_config_t`).
#[derive(Debug, Clone, Copy, PartialEq, Eq, Structural)]
pub struct SpiDeviceConfig {
    pub command_bits: u8,
    pub address_bits: u8,
    pub mode: u8,
    pub clock_speed_hz: i32,
    pub spics_io_num: i32,
    pub queue_size: i32,
}

/// The SPI configuration of a controller: SPI mode 0, the given clock, the
/// chip-select pin or none, and a queue of 20 transactions.
pub fn get_spi_conf(cs: Option<i32>, command_bits: u8, address_bits: u8, baudrate: u32) -> (c: SpiDeviceConfig)
    ensures
        c.command_bits == command_bits,
        c.address_bits == address_bits,
        c.mode == 0,
        c.clock_speed_hz == baudrate as i32,
        c.spics_io_num == match cs {
            Some(p) => p,
            None => -1i32,
        },
        c.queue_size == 20,
{
    let pin = match cs {
        Some(p) => p,
        None => -1,
    };
    SpiDeviceConfig { command_bits, address_bits, mode: 0, clock_speed_hz: baudrate as i32, spics_io_num: pin, queue_size: 20 }
}

/// The command and address phase widths of a controller's SPI protocol.
pub open spec fn spi_phase_bits(chipset: SpiEthChipset) -> (u8, u8) {
    match chipset {
        SpiEthChipset::DM9051 => (1, 7),
        SpiEthChipset::W5500 => (16, 8),
        SpiEthChipset::KSZ8851SNL => (0, 0),
    }
}

/// What bringing up an SPI Ethernet controller hands to the native
/// constructors: the MAC, PHY and SPI configurations and the interrupt pin.
#[derive(Debug, Clone, Copy, PartialEq, Eq, Structural)]
pub struct SpiEthSetup {
    pub mac: MacConfig,
    pub phy: PhyConfig,
    pub spi: SpiDeviceConfig,
    pub int_gpio_num: i32,
}

/// The configurations for an SPI Ethernet controller:
/// the default MAC configuration, the default PHY configuration for the
/// reset pin and address, and the SPI configuration with the controller's
/// phase widths.
pub fn init_spi(chipset: SpiEthChipset, baudrate: u32, int_pin: i32, cs: Option<i32>, rst: Option<i32>, phy_addr: Option<u32>) -> (s: SpiEthSetup)
    ensures
        s.mac == (MacConfig { sw_reset_timeout_ms: 100, rx_task_stack_size: 2048, rx_task_prio: 15, flags: 0 }),
        s.phy.phy_addr == match phy_addr {
            Some(a) => a as i32,
            None => ESP_ETH_PHY_ADDR_AUTO,
        },
        s.phy.reset_timeout_ms == 100,
        s.phy.autonego_timeout_ms == 4000,
        s.phy.reset_gpio_num == match rst {
            Some(p) => p,
            None => -1i32,
        },
        (s.spi.command_bits, s.spi.address_bits) == spi_phase_bits(chipset),
        s.spi.mode == 0,
        s.spi.clock_speed_hz == baudrate as i32,
        s.spi.spics_io_num == match cs {
            Some(p) => p,
            None => -1i32,
        },
        s.spi.queue_size == 20,
        s.int_gpio_num == int_pin,
{
    let mac = eth_mac_default_config();
    let phy = eth_phy_default_config(rst, phy_addr);
    let spi = match chipset {
        SpiEthChipset::DM9051 => get_spi_conf(cs, 1, 7, baudrate),
        SpiEthChipset::W5500 => get_spi_conf(cs, 16, 8, baudrate),
        SpiEthChipset::KSZ8851SNL => get_spi_conf(cs, 0, 0, baudrate),
    };
    SpiEthSetup { mac, phy, spi, int_gpio_num: int_pin }
}

// ---------------------------------------------------------------------------
// The internal EMAC on RMII
// ---------------------------------------------------------------------------

/// RMII reference clock mode: the default of the build.
pub const EMAC_CLK_DEFAULT: u32 = 0;
/// RMII reference clock mode: fed from outside.
pub const EMAC_CLK_EXT_IN: u32 = 1;
/// RMII reference clock mode: generated by the chip.
pub const EMAC_CLK_OUT: u32 = 2;
/// RMII clock pin: the input on GPIO0.
pub const EMAC_CLK_IN_GPIO: u32 = 0;
/// RMII clock pin: the APLL output on GPIO0.
pub const EMAC_APPL_CLK_OUT_GPIO: u32 = 0;
/// RMII clock pin: the output on GPIO16.
pub const EMAC_CLK_OUT_GPIO: u32 = 16;
/// RMII clock pin: the inverted output on GPIO17.
pub const EMAC_CLK_OUT_180_GPIO: u32 = 17;

/// Where the RMII reference clock comes from.
#[derive(Debug, Clone, Copy, PartialEq, Eq, Structural)]
pub enum RmiiClockConfig {
    /// An external clock on GPIO0.
    Input,
    /// The chip's clock, out on GPIO0.
    OutputGpio0,
    /// The chip's clock, out on GPIO16.
    OutputGpio16,
    /// The chip's inverted clock, out on GPIO17.
    OutputInvertedGpio17,
}

/// The MAC's reference clock setting (`eth_mac_clock_config_t`).
#[derive(Debug, Clone, Copy, PartialEq, Eq, Structural)]
pub struct MacClockConfig {
    pub clock_mode: u32,
    pub clock_gpio: u32,
}

/// The clock mode and pin that each clock source stands for.
pub open spec fn clock_config_of(c: RmiiClockConfig) -> MacClockConfig {
    match c {
        RmiiClockConfig::Input => MacClockConfig { clock_mode: EMAC_CLK_EXT_IN, clock_gpio: EMAC_CLK_IN_GPIO },
        RmiiClockConfig::OutputGpio0 => MacClockConfig { clock_mode: EMAC_CLK_OUT, clock_gpio: EMAC_APPL_CLK_OUT_GPIO },
        RmiiClockConfig::OutputGpio16 => MacClockConfig { clock_mode: EMAC_CLK_OUT, clock_gpio: EMAC_CLK_OUT_GPIO },
        RmiiClockConfig::OutputInvertedGpio17 => MacClockConfig {
            clock_mode: EMAC_CLK_OUT,
            clock_gpio: EMAC_CLK_OUT_180_GPIO,
        },
    }
}

impl RmiiClockConfig {
    /// The MAC clock setting for this clock source.
    pub fn eth_mac_clock_config(&self) -> (c: MacClockConfig)
        ensures
            c == clock_config_of(*self),
    {
        match self {
            RmiiClockConfig::Input => MacClockConfig { clock_mode: EMAC_CLK_EXT_IN, clock_gpio: EMAC_CLK_IN_GPIO },
            RmiiClockConfig::OutputGpio0 => MacClockConfig {
                clock_mode: EMAC_CLK_OUT,
                clock_gpio: EMAC_APPL_CLK_OUT_GPIO,
            },
            RmiiClockConfig::OutputGpio16 => MacClockConfig { clock_mode: EMAC_CLK_OUT, clock_gpio: EMAC_CLK_OUT_GPIO },
            RmiiClockConfig::OutputInvertedGpio17 => MacClockConfig {
                clock_mode: EMAC_CLK_OUT,
                clock_gpio: EMAC_CLK_OUT_180_GPIO,
            },
        }
    }
}

/// A PHY chip on the RMII bus.
#[derive(Debug, Clone, Copy, PartialEq, Eq, Structural)]
pub enum RmiiEthChipset {
    IP101,
    RTL8201,
    LAN87XX,
    DP83848,
    KSZ80XX,
}

/// What the bring-up of the internal EMAC hands to the native constructors.
#[derive(Debug, Clone, Copy, PartialEq, Eq, Structural)]
pub struct RmiiEthSetup {
    pub mac: MacConfig,
    pub emac: Esp32EmacConfig,
    pub clock: MacClockConfig,
    pub phy: PhyConfig,
    pub chipset: RmiiEthChipset,
}

/// The configurations for the internal EMAC with management pins `mdc` and
/// `mdio`, the reference clock `clock`, and a PHY `chipset` at `phy_addr`
/// (or detected) with reset pin `rst` (or none).
pub fn init_rmii(
    mdc: i32,
    mdio: i32,
    clock: RmiiClockConfig,
    rst: Option<i32>,
    chipset: RmiiEthChipset,
    phy_addr: Option<u32>,
) -> (s: RmiiEthSetup)
    ensures
        s.mac == (MacConfig { sw_reset_timeout_ms: 100, rx_task_stack_size: 2048, rx_task_prio: 15, flags: 0 }),
        s.emac == (Esp32EmacConfig { smi_mdc_gpio_num: mdc, smi_mdio_gpio_num: mdio, rmii: true }),
        s.clock == clock_config_of(clock),
        s.phy.phy_addr == match phy_addr {
            Some(a) => a as i32,
            None => ESP_ETH_PHY_ADDR_AUTO,
        },
        s.phy.reset_timeout_ms == 100,
        s.phy.autonego_timeout_ms == 4000,
        s.phy.reset_gpio_num == match rst {
            Some(p) => p,
            None => -1i32,
        },
        s.chipset == chipset,
{
    let emac = eth_esp32_emac_default_config(mdc, mdio);
    let clock = clock.eth_mac_clock_config();
    let mac = eth_mac_default_config();
    let phy = eth_phy_default_config(rst, phy_addr);
    RmiiEthSetup { mac, emac, clock, phy, chipset }
}

// ---------------------------------------------------------------------------
// Driver bring-up
// ---------------------------------------------------------------------------

/// One native step of the driver's bring-up.
#[derive(Debug, Clone, Copy)]
pub enum EthInitStep {
    /// Install the driver for the configured MAC and PHY.
    InstallDriver,
    /// Give the interface this MAC address.
    SetMacAddress([u8; 6]),
    /// Subscribe to the driver's events on the system loop.
    Subscribe,
}

/// The bring-up steps, in order: install, set the MAC address if one is
/// given, subscribe.
pub open spec fn eth_init_steps(mac_addr: Option<[u8; 6]>) -> Seq<EthInitStep> {
    match mac_addr {
        Some(a) => seq![EthInitStep::InstallDriver, EthInitStep::SetMacAddress(a), EthInitStep::Subscribe],
        None => seq![EthInitStep::InstallDriver, EthInitStep::Subscribe],
    }
}

/// Brings the driver up: runs `eth_init_steps(mac_addr)` through `run` and
/// stops at the first step that fails, with its error.
pub fn init<F: Fn(EthInitStep) -> i32>(mac_addr: Option<[u8; 6]>, run: &F) -> (r: Result<(), EspError>)
    requires
        forall|s: EthInitStep| call_requires(*run, (s,)),
    ensures
        exists|codes: Seq<i32>| #[trigger] ran_until_failure(eth_init_steps(mac_addr), codes, *run)
            && match r {
                Ok(()) => run_result(eth_init_steps(mac_addr).len(), codes) == Ok::<(), i32>(()),
                Err(e) => run_result(eth_init_steps(mac_addr).len(), codes) == Err::<(), i32>(e.spec_code()),
            },
{
    let steps: Vec<EthInitStep> = match mac_addr {
        Some(a) => vec![EthInitStep::InstallDriver, EthInitStep::SetMacAddress(a), EthInitStep::Subscribe],
        None => vec![EthInitStep::InstallDriver, EthInitStep::Subscribe],
    };
    assert(steps@ =~= eth_init_steps(mac_addr));
    run_steps(&steps, run)
}


} // verus!
