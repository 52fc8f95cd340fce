//! Configuration and state types of the ATX power control.
//!
//! Each action (power, reset) and the status sensing is bound to a driver of its
//! own. A binding counts as configured when its driver is set and the field that
//! this driver addresses its hardware by is not empty.

use vstd::prelude::*;

verus! {

/// Power status of the managed host.
#[derive(Debug, Clone, Copy, PartialEq, Eq, Structural)]
pub enum PowerStatus {
    /// Power is on.
    On,
    /// Power is off.
    Off,
    /// No sensing is configured, or sensing failed.
    Unknown,
}

impl Default for PowerStatus {
    fn default() -> (r: Self)
        ensures
            r == PowerStatus::Unknown,
    {
        PowerStatus::Unknown
    }
}

/// Driver of a key action.
#[derive(Debug, Clone, Copy, PartialEq, Eq, Structural)]
pub enum AtxDriverType {
    /// GPIO line of a character device.
    Gpio,
    /// Channel of a USB HID relay.
    UsbRelay,
    /// Smart plug, driven through the external tool.
    Miot,
    /// Not bound.
    Disabled,
}

impl Default for AtxDriverType {
    fn default() -> (r: Self)
        ensures
            r == AtxDriverType::Disabled,
    {
        AtxDriverType::Disabled
    }
}

/// Polarity of a GPIO line.
#[derive(Debug, Clone, Copy, PartialEq, Eq, Structural)]
pub enum ActiveLevel {
    /// Active high.
    High,
    /// Active low.
    Low,
}

impl Default for ActiveLevel {
    fn default() -> (r: Self)
        ensures
            r == ActiveLevel::High,
    {
        ActiveLevel::High
    }
}

/// Binding of one key (power or reset).
///
/// A local driver addresses its hardware by `device` and `pin`; the smart plug
/// by `prop` and `value`, and, for the power key's forced off, by `off_prop` and
/// `off_value`.
#[derive(Debug, PartialEq, Eq)]
pub struct AtxKeyConfig {
    /// Driver of the key.
    pub driver: AtxDriverType,
    /// Device path of a local driver.
    pub device: String,
    /// GPIO pin, or relay channel.
    pub pin: u32,
    /// Polarity (GPIO only).
    pub active_level: ActiveLevel,
    /// Smart-plug property of the action.
    pub prop: String,
    /// Value written to `prop`.
    pub value: String,
    /// Smart-plug property of the forced off.
    pub off_prop: String,
    /// Value written to `off_prop`.
    pub off_value: String,
}

impl AtxKeyConfig {
    /// The driver is set, and the field by which it addresses its hardware is
    /// not empty: `device` for a local driver, `prop` for the smart plug.
    pub open spec fn configured(&self) -> bool {
        &&& self.driver != AtxDriverType::Disabled
        &&& (self.driver == AtxDriverType::Miot ==> self.prop@.len() > 0)
        &&& (self.driver == AtxDriverType::Gpio || self.driver == AtxDriverType::UsbRelay
            ==> self.device@.len() > 0)
    }

    /// Not bound: no driver, pin 0, active high, every text empty.
    pub open spec fn is_default(&self) -> bool {
        &&& self.driver == AtxDriverType::Disabled
        &&& self.device@.len() == 0
        &&& self.pin == 0
        &&& self.active_level == ActiveLevel::High
        &&& self.prop@.len() == 0
        &&& self.value@.len() == 0
        &&& self.off_prop@.len() == 0
        &&& self.off_value@.len() == 0
    }

    /// Whether this key is configured.
    #[verifier::when_used_as_spec(configured)]
    pub fn is_configured(&self) -> (b: bool)
        ensures
            b == self.configured(),
    {
        match self.driver {
            AtxDriverType::Disabled => false,
            AtxDriverType::Gpio | AtxDriverType::UsbRelay => !self.device.as_str().is_empty(),
            AtxDriverType::Miot => !self.prop.as_str().is_empty(),
        }
    }
}

impl Default for AtxKeyConfig {
    fn default() -> (r: Self)
        ensures
            r.is_default(),
    {
        AtxKeyConfig {
            driver: AtxDriverType::Disabled,
            device: String::new(),
            pin: 0,
            active_level: ActiveLevel::High,
            prop: String::new(),
            value: String::new(),
            off_prop: String::new(),
            off_value: String::new(),
        }
    }
}

impl Clone for AtxKeyConfig {
    fn clone(&self) -> (r: Self)
        ensures
            r == *self,
    {
        AtxKeyConfig {
            driver: self.driver,
            device: self.device.clone(),
            pin: self.pin,
            active_level: self.active_level,
            prop: self.prop.clone(),
            value: self.value.clone(),
            off_prop: self.off_prop.clone(),
            off_value: self.off_value.clone(),
        }
    }
}

/// Connection settings of the smart plug, shared by every binding that uses it.
#[derive(Debug, PartialEq, Eq)]
pub struct MiotConfig {
    /// Device id of the plug.
    pub did: String,
    /// The external tool to run.
    pub command: String,
    /// Path of the tool's credentials file; may be empty.
    pub auth_path: String,
}

impl MiotConfig {
    /// The device id is not empty.
    pub open spec fn configured(&self) -> bool {
        self.did@.len() > 0
    }

    /// No device id, no credentials file, and the tool by its usual name.
    pub open spec fn is_default(&self) -> bool {
        &&& self.did@.len() == 0
        &&& self.command@ == "mijiaAPI"@
        &&& self.auth_path@.len() == 0
    }

    /// Whether the connection is configured.
    #[verifier::when_used_as_spec(configured)]
    pub fn is_configured(&self) -> (b: bool)
        ensures
            b == self.configured(),
    {
        !self.did.as_str().is_empty()
    }
}

impl Default for MiotConfig {
    fn default() -> (r: Self)
        ensures
            r.is_default(),
    {
        MiotConfig {
            did: String::new(),
            command: "mijiaAPI".to_owned(),
            auth_path: String::new(),
        }
    }
}

impl Clone for MiotConfig {
    fn clone(&self) -> (r: Self)
        ensures
            r == *self,
    {
        MiotConfig {
            did: self.did.clone(),
            command: self.command.clone(),
            auth_path: self.auth_path.clone(),
        }
    }
}

/// Driver of the status sensing.
#[derive(Debug, Clone, Copy, PartialEq, Eq, Structural)]
pub enum AtxStatusDriverType {
    /// Not bound.
    Disabled,
    /// Power LED, read through a GPIO line.
    Led,
    /// Property of the smart plug.
    Miot,
}

impl Default for AtxStatusDriverType {
    fn default() -> (r: Self)
        ensures
            r == AtxStatusDriverType::Disabled,
    {
        AtxStatusDriverType::Disabled
    }
}

/// Binding of the status sensing.
#[derive(Debug, PartialEq, Eq)]
pub struct AtxStatusConfig {
    /// Driver of the sensing.
    pub driver: AtxStatusDriverType,
    /// GPIO chip of the LED line.
    pub gpio_chip: String,
    /// GPIO pin of the LED line.
    pub gpio_pin: u32,
    /// Whether the LED line is active low.
    pub inverted: bool,
    /// Smart-plug property to read.
    pub prop: String,
    /// Value of `prop` that means "on".
    pub on_value: String,
    /// Value of `prop` that means "off".
    pub off_value: String,
}

impl AtxStatusConfig {
    /// The driver is set, and the field by which it addresses its hardware is
    /// not empty: `gpio_chip` for the LED, `prop` for the smart plug.
    pub open spec fn configured(&self) -> bool {
        &&& self.driver != AtxStatusDriverType::Disabled
        &&& (self.driver == AtxStatusDriverType::Miot ==> self.prop@.len() > 0)
        &&& (self.driver == AtxStatusDriverType::Led ==> self.gpio_chip@.len() > 0)
    }

    /// Not bound: no driver, pin 0, not inverted, every text empty.
    pub open spec fn is_default(&self) -> bool {
        &&& self.driver == AtxStatusDriverType::Disabled
        &&& self.gpio_chip@.len() == 0
        &&& self.gpio_pin == 0
        &&& !self.inverted
        &&& self.prop@.len() == 0
        &&& self.on_value@.len() == 0
        &&& self.off_value@.len() == 0
    }

    /// Whether the sensing is configured.
    #[verifier::when_used_as_spec(configured)]
    pub fn is_configured(&self) -> (b: bool)
        ensures
            b == self.configured(),
    {
        match self.driver {
            AtxStatusDriverType::Disabled => false,
            AtxStatusDriverType::Led => !self.gpio_chip.as_str().is_empty(),
            AtxStatusDriverType::Miot => !self.prop.as_str().is_empty(),
        }
    }
}

impl Default for AtxStatusConfig {
    fn default() -> (r: Self)
        ensures
            r.is_default(),
    {
        AtxStatusConfig {
            driver: AtxStatusDriverType::Disabled,
            gpio_chip: String::new(),
            gpio_pin: 0,
            inverted: false,
            prop: String::new(),
            on_value: String::new(),
            off_value: String::new(),
        }
    }
}

impl Clone for AtxStatusConfig {
    fn clone(&self) -> (r: Self)
        ensures
            r == *self,
    {
        AtxStatusConfig {
            driver: self.driver,
            gpio_chip: self.gpio_chip.clone(),
            gpio_pin: self.gpio_pin,
            inverted: self.inverted,
            prop: self.prop.clone(),
            on_value: self.on_value.clone(),
            off_value: self.off_value.clone(),
        }
    }
}

/// What the LED sensor is made with.
#[derive(Debug, PartialEq, Eq)]
pub struct AtxLedConfig {
    /// Whether the sensing is switched on.
    pub enabled: bool,
    /// GPIO chip of the LED line.
    pub gpio_chip: String,
    /// GPIO pin of the LED line.
    pub gpio_pin: u32,
    /// Whether the LED line is active low.
    pub inverted: bool,
}

impl AtxLedConfig {
    /// Switched on, with a GPIO chip named.
    pub open spec fn configured(&self) -> bool {
        self.enabled && self.gpio_chip@.len() > 0
    }

    /// Switched off: no GPIO chip, pin 0, not inverted.
    pub open spec fn is_default(&self) -> bool {
        &&& !self.enabled
        &&& self.gpio_chip@.len() == 0
        &&& self.gpio_pin == 0
        &&& !self.inverted
    }

    /// Whether the LED sensing is configured.
    #[verifier::when_used_as_spec(configured)]
    pub fn is_configured(&self) -> (b: bool)
        ensures
            b == self.configured(),
    {
        self.enabled && !self.gpio_chip.as_str().is_empty()
    }
}

impl Default for AtxLedConfig {
    fn default() -> (r: Self)
        ensures
            r.is_default(),
    {
        AtxLedConfig { enabled: false, gpio_chip: String::new(), gpio_pin: 0, inverted: false }
    }
}

impl Clone for AtxLedConfig {
    fn clone(&self) -> (r: Self)
        ensures
            r == *self,
    {
        AtxLedConfig {
            enabled: self.enabled,
            gpio_chip: self.gpio_chip.clone(),
            gpio_pin: self.gpio_pin,
            inverted: self.inverted,
        }
    }
}

/// Snapshot of the controller, computed anew for every query.
#[derive(Debug, Clone, Copy, PartialEq, Eq, Structural)]
pub struct AtxState {
    /// Whether the feature is enabled.
    pub available: bool,
    /// Whether the power key can be pressed.
    pub power_configured: bool,
    /// Whether the reset key can be pressed.
    pub reset_configured: bool,
    /// Power status as sensed for this snapshot.
    pub power_status: PowerStatus,
    /// Whether the selected status backend is live.
    pub status_supported: bool,
}

impl AtxState {
    /// The snapshot of a controller that offers nothing.
    pub open spec fn unavailable() -> AtxState {
        AtxState {
            available: false,
            power_configured: false,
            reset_configured: false,
            power_status: PowerStatus::Unknown,
            status_supported: false,
        }
    }
}

impl Default for AtxState {
    fn default() -> (r: Self)
        ensures
            r == AtxState::unavailable(),
    {
        AtxState {
            available: false,
            power_configured: false,
            reset_configured: false,
            power_status: PowerStatus::Unknown,
            status_supported: false,
        }
    }
}

/// A key action that a caller can ask for.
#[derive(Debug, Clone, Copy, PartialEq, Eq, Structural)]
pub enum AtxAction {
    /// Short press of the power key.
    Short,
    /// Long press of the power key: forced off.
    Long,
    /// Press of the reset key.
    Reset,
}

/// Request for a key action.
#[derive(Debug, Clone, Copy, PartialEq, Eq, Structural)]
pub struct AtxPowerRequest {
    /// The action asked for.
    pub action: AtxAction,
}

/// Devices found on the machine that a key can be bound to.
#[derive(Debug, PartialEq, Eq)]
pub struct AtxDevices {
    /// GPIO chips.
    pub gpio_chips: Vec<String>,
    /// USB HID relays.
    pub usb_relays: Vec<String>,
}

impl Default for AtxDevices {
    fn default() -> (r: Self)
        ensures
            r.gpio_chips@.len() == 0,
            r.usb_relays@.len() == 0,
    {
        AtxDevices { gpio_chips: Vec::new(), usb_relays: Vec::new() }
    }
}

} // verus!
