//! The controller: which backend serves which action, and what each action asks
//! of it.
//!
//! The controller holds the configuration and what it knows of the four
//! backends: the power executor, the reset executor, the LED sensor and the
//! smart-plug backend. A backend that is absent makes its feature unavailable;
//! that is no error until the feature is used.
//!
//! Key executors and the LED sensor live with the caller. The caller sets them
//! up as `init_plan` says, reports how that went to `init`, and carries out the
//! `KeyStep` and the `StatusQuery` that an action returns.

use vstd::prelude::*;
use crate::error::AtxError;
use crate::miot::{CommandOutcome, MiotBackend, MiotCommand, MiotState};
use crate::types::{
    AtxDriverType, AtxKeyConfig, AtxLedConfig, AtxState, AtxStatusConfig, AtxStatusDriverType,
    MiotConfig, PowerStatus,
};

verus! {

/// Milliseconds of a short press of the power key.
pub const SHORT_PRESS_MS: u64 = 500;

/// Milliseconds of a long press of the power key, which forces the host off.
pub const LONG_PRESS_MS: u64 = 5000;

/// Milliseconds of a press of the reset key.
pub const RESET_PRESS_MS: u64 = 500;

/// Configuration of the controller.
#[derive(Debug, PartialEq, Eq)]
pub struct AtxControllerConfig {
    /// Whether the feature is enabled.
    pub enabled: bool,
    /// Binding of the power key, for the short and the long press.
    pub power: AtxKeyConfig,
    /// Binding of the reset key.
    pub reset: AtxKeyConfig,
    /// Binding of the status sensing.
    pub status: AtxStatusConfig,
    /// Connection settings of the smart plug.
    pub miot: MiotConfig,
}

impl AtxControllerConfig {
    /// Disabled, with nothing bound.
    pub open spec fn is_default(&self) -> bool {
        &&& !self.enabled
        &&& self.power.is_default()
        &&& self.reset.is_default()
        &&& self.status.is_default()
        &&& self.miot.is_default()
    }

    /// A key or the status sensing is bound to the smart plug.
    pub open spec fn needs_miot(&self) -> bool {
        ||| self.power.driver == AtxDriverType::Miot
        ||| self.reset.driver == AtxDriverType::Miot
        ||| self.status.driver == AtxStatusDriverType::Miot
    }

    /// What the LED sensor is made with.
    pub open spec fn led_config(&self) -> AtxLedConfig {
        AtxLedConfig {
            enabled: true,
            gpio_chip: self.status.gpio_chip,
            gpio_pin: self.status.gpio_pin,
            inverted: self.status.inverted,
        }
    }
}

impl Default for AtxControllerConfig {
    fn default() -> (r: Self)
        ensures
            r.is_default(),
    {
        AtxControllerConfig {
            enabled: false,
            power: AtxKeyConfig::default(),
            reset: AtxKeyConfig::default(),
            status: AtxStatusConfig::default(),
            miot: MiotConfig::default(),
        }
    }
}

impl Clone for AtxControllerConfig {
    fn clone(&self) -> (r: Self)
        ensures
            r == *self,
    {
        AtxControllerConfig {
            enabled: self.enabled,
            power: self.power.clone(),
            reset: self.reset.clone(),
            status: self.status.clone(),
            miot: self.miot.clone(),
        }
    }
}

/// Whether a key or the status sensing is bound to the smart plug.
pub fn needs_miot_backend(config: &AtxControllerConfig) -> (b: bool)
    ensures
        b == config.needs_miot(),
{
    config.power.driver == AtxDriverType::Miot || config.reset.driver == AtxDriverType::Miot
        || config.status.driver == AtxStatusDriverType::Miot
}

/// One of the two keys.
#[derive(Debug, Clone, Copy, PartialEq, Eq, Structural)]
pub enum AtxKey {
    /// The power key.
    Power,
    /// The reset key.
    Reset,
}

/// What the controller knows of a local backend that is live: whether it says
/// of itself that it is initialised.
#[derive(Debug, Clone, Copy, PartialEq, Eq, Structural)]
pub struct Handle {
    /// Whether the backend says that it is initialised.
    pub initialized: bool,
}

/// The local backends that the caller is to set up.
#[derive(Debug, PartialEq, Eq)]
pub struct InitPlan {
    /// The binding to make the power executor with, where one is due.
    pub power: Option<AtxKeyConfig>,
    /// The binding to make the reset executor with, where one is due.
    pub reset: Option<AtxKeyConfig>,
    /// The settings to make the LED sensor with, where one is due.
    pub led: Option<AtxLedConfig>,
}

/// How the set-up of the local backends went: for each the handle, where it was
/// set up and that succeeded.
#[derive(Debug, Clone, Copy, PartialEq, Eq, Structural)]
pub struct InitReport {
    /// The power executor.
    pub power: Option<Handle>,
    /// The reset executor.
    pub reset: Option<Handle>,
    /// The LED sensor.
    pub led: Option<Handle>,
}

/// What the caller is to do next for a key action.
#[derive(Debug, PartialEq, Eq)]
pub enum KeyStep {
    /// Sense the power status, and ask again with it.
    Sense,
    /// Run `command`, which writes `value` to `prop` of the plug;
    /// `MiotBackend::set_prop` of the three and the outcome of the run is the
    /// action's result.
    Send {
        /// The property that is written.
        prop: String,
        /// The value that is written.
        value: String,
        /// The run that writes it.
        command: MiotCommand,
    },
    /// Pulse the executor of `key` for `millis` milliseconds; the result of the
    /// pulse is the action's result.
    Pulse {
        /// The key whose executor is pulsed.
        key: AtxKey,
        /// The length of the pulse.
        millis: u64,
    },
}

/// What the caller is to do to sense the power status.
#[derive(Debug, PartialEq, Eq)]
pub enum StatusQuery {
    /// Nothing: the status is unknown.
    Idle,
    /// Read the LED sensor once.
    ReadLed,
    /// Run this command.
    Run(MiotCommand),
}

/// What sensing brought.
#[derive(Debug, PartialEq, Eq)]
pub enum StatusReading {
    /// Nothing was done.
    Idle,
    /// The LED sensor was read; `None` where the read failed.
    Led(Option<PowerStatus>),
    /// The command was run.
    Ran(CommandOutcome),
}

/// An event for the bus that the caller publishes on.
#[derive(Debug, Clone, Copy, PartialEq, Eq, Structural)]
pub enum AtxEvent {
    /// The state of the controller, as of now.
    StateChanged {
        /// The power status.
        power_status: PowerStatus,
    },
}

/// What a controller is: its configuration and what it knows of its backends.
pub struct ControllerState {
    /// The configuration.
    pub config: AtxControllerConfig,
    /// The power executor, where one is live.
    pub power_executor: Option<Handle>,
    /// The reset executor, where one is live.
    pub reset_executor: Option<Handle>,
    /// The LED sensor, where one is live.
    pub led_sensor: Option<Handle>,
    /// The smart-plug backend, where one is live.
    pub miot_backend: Option<MiotState>,
}

impl ControllerState {
    /// A controller with `config` and no backend.
    pub open spec fn fresh(config: AtxControllerConfig) -> ControllerState {
        ControllerState {
            config,
            power_executor: None,
            reset_executor: None,
            led_sensor: None,
            miot_backend: None,
        }
    }

    /// No backend is live.
    pub open spec fn no_backend(self) -> bool {
        &&& self.power_executor is None
        &&& self.reset_executor is None
        &&& self.led_sensor is None
        &&& self.miot_backend is None
    }

    /// The binding of `key`.
    pub open spec fn key_config(self, key: AtxKey) -> AtxKeyConfig {
        match key {
            AtxKey::Power => self.config.power,
            AtxKey::Reset => self.config.reset,
        }
    }

    /// The executor of `key`.
    pub open spec fn executor(self, key: AtxKey) -> Option<Handle> {
        match key {
            AtxKey::Power => self.power_executor,
            AtxKey::Reset => self.reset_executor,
        }
    }

    /// Initialising sets up the smart-plug backend: the feature is enabled, a key
    /// or the status is bound to the plug, and the connection is configured.
    pub open spec fn wants_miot(self) -> bool {
        self.config.enabled && self.config.needs_miot() && self.config.miot.configured()
    }

    /// Initialising sets up the executor of `key`: the feature is enabled, and
    /// the key is configured with a local driver.
    pub open spec fn wants_executor(self, key: AtxKey) -> bool {
        &&& self.config.enabled
        &&& self.key_config(key).driver != AtxDriverType::Miot
        &&& self.key_config(key).configured()
    }

    /// Initialising sets up the LED sensor: the feature is enabled, and the
    /// status is configured with the LED driver.
    pub open spec fn wants_led(self) -> bool {
        &&& self.config.enabled
        &&& self.config.status.driver == AtxStatusDriverType::Led
        &&& self.config.status.configured()
    }

    /// What holds of a controller at all times: a backend is live only where
    /// the configuration asks for it, and the smart-plug backend is ready and
    /// has the connection settings of the configuration.
    pub open spec fn well_formed(self) -> bool {
        &&& self.power_executor is Some ==> self.wants_executor(AtxKey::Power)
        &&& self.reset_executor is Some ==> self.wants_executor(AtxKey::Reset)
        &&& self.led_sensor is Some ==> self.wants_led()
        &&& self.miot_backend matches Some(b) ==> self.wants_miot() && b == (MiotState {
            config: self.config.miot,
            initialized: true,
        })
    }

    /// The local backends that initialising sets up.
    pub open spec fn plan(self) -> InitPlan {
        InitPlan {
            power: if self.wants_executor(AtxKey::Power) {
                Some(self.config.power)
            } else {
                None
            },
            reset: if self.wants_executor(AtxKey::Reset) {
                Some(self.config.reset)
            } else {
                None
            },
            led: if self.wants_led() {
                Some(self.config.led_config())
            } else {
                None
            },
        }
    }

    /// The controller after `init`. A backend that was due and came up replaces
    /// what was there; one that was not due, or failed, leaves it as it was.
    /// Disabled, nothing is due.
    pub open spec fn after_init(self, report: InitReport) -> ControllerState {
        ControllerState {
            config: self.config,
            power_executor: if self.wants_executor(AtxKey::Power) && report.power is Some {
                report.power
            } else {
                self.power_executor
            },
            reset_executor: if self.wants_executor(AtxKey::Reset) && report.reset is Some {
                report.reset
            } else {
                self.reset_executor
            },
            led_sensor: if self.wants_led() && report.led is Some {
                report.led
            } else {
                self.led_sensor
            },
            miot_backend: if self.wants_miot() {
                Some(MiotState { config: self.config.miot, initialized: true })
            } else {
                self.miot_backend
            },
        }
    }

    /// The controller after `shutdown`: the same configuration, no backend.
    pub open spec fn after_shutdown(self) -> ControllerState {
        ControllerState::fresh(self.config)
    }

    /// The controller after `reload`: shut down, given the new configuration,
    /// and initialised.
    pub open spec fn after_reload(
        self,
        new_config: AtxControllerConfig,
        report: InitReport,
    ) -> ControllerState {
        (ControllerState { config: new_config, ..self.after_shutdown() }).after_init(report)
    }

    /// `q` is what sensing asks of the caller. The plug is asked where the
    /// status is bound to it and its backend is live and ready; the LED is read
    /// where the status is bound to it and the sensor is live; else nothing is
    /// done.
    pub open spec fn asks(self, q: StatusQuery) -> bool {
        match self.config.status.driver {
            AtxStatusDriverType::Miot => match self.miot_backend {
                Some(b) => if b.initialized {
                    q matches StatusQuery::Run(c) && b.reads(c, self.config.status.prop@)
                } else {
                    q is Idle
                },
                None => q is Idle,
            },
            AtxStatusDriverType::Led => if self.led_sensor is Some {
                q is ReadLed
            } else {
                q is Idle
            },
            AtxStatusDriverType::Disabled => q is Idle,
        }
    }

    /// The power status, given what sensing brought. Every failure is unknown:
    /// no driver, no backend, a backend that is not ready, a reading of another
    /// kind than the driver's, a run or a read that failed, an output without a
    /// value.
    pub open spec fn resolved_status(self, reading: StatusReading) -> PowerStatus {
        match self.config.status.driver {
            AtxStatusDriverType::Miot => match (self.miot_backend, reading) {
                (Some(b), StatusReading::Ran(outcome)) => b.sensed(
                    self.config.status.on_value@,
                    outcome,
                ),
                _ => PowerStatus::Unknown,
            },
            AtxStatusDriverType::Led => match (self.led_sensor, reading) {
                (Some(_), StatusReading::Led(Some(s))) => s,
                _ => PowerStatus::Unknown,
            },
            AtxStatusDriverType::Disabled => PowerStatus::Unknown,
        }
    }

    /// `key` can be pressed: it is configured, and where it is bound to the
    /// smart plug, the smart-plug backend is live.
    pub open spec fn key_configured(self, key: AtxKey) -> bool {
        &&& self.key_config(key).configured()
        &&& (self.key_config(key).driver != AtxDriverType::Miot || self.miot_backend is Some)
    }

    /// The backend of the selected status driver is live and initialised.
    pub open spec fn status_supported(self) -> bool {
        match self.config.status.driver {
            AtxStatusDriverType::Led => self.led_sensor matches Some(h) && h.initialized,
            AtxStatusDriverType::Miot => self.miot_backend matches Some(b) && b.initialized,
            AtxStatusDriverType::Disabled => false,
        }
    }

    /// The snapshot of the controller, given what sensing brought.
    pub open spec fn snapshot(self, reading: StatusReading) -> AtxState {
        AtxState {
            available: self.config.enabled,
            power_configured: self.key_configured(AtxKey::Power),
            reset_configured: self.key_configured(AtxKey::Reset),
            power_status: self.resolved_status(reading),
            status_supported: self.status_supported(),
        }
    }

    /// Why `key` cannot be pressed: the backend that it is bound to is absent.
    /// `None` where it is there.
    pub open spec fn unavailable(self, key: AtxKey) -> Option<AtxError> {
        if self.key_config(key).driver == AtxDriverType::Miot {
            if self.miot_backend is None {
                Some(AtxError::MiotNotInitialized)
            } else {
                None
            }
        } else if self.executor(key) is None {
            Some(
                match key {
                    AtxKey::Power => AtxError::PowerNotConfigured,
                    AtxKey::Reset => AtxError::ResetNotConfigured,
                },
            )
        } else {
            None
        }
    }

    /// `step` sends `(prop, value)` to the plug of the live smart-plug backend.
    pub open spec fn sends(self, step: KeyStep, prop: Seq<char>, value: Seq<char>) -> bool {
        &&& step matches KeyStep::Send { prop: p, value: v, command }
        &&& p@ == prop
        &&& v@ == value
        &&& self.miot_backend matches Some(b)
        &&& b.writes(command, prop, value)
    }

    /// `step` is the step of a short press of the power key, given the status
    /// sensed so far. Bound to the plug, the press first asks for the status;
    /// with it, it sends the forced off where the host is on, and the action's
    /// own property where it is off or unknown. Bound to a local driver it is a
    /// short pulse.
    pub open spec fn short_press(self, sensed: Option<PowerStatus>, step: KeyStep) -> bool {
        if self.config.power.driver == AtxDriverType::Miot {
            match sensed {
                None => step is Sense,
                Some(PowerStatus::On) => self.sends(
                    step,
                    self.config.power.off_prop@,
                    self.config.power.off_value@,
                ),
                Some(_) => self.sends(step, self.config.power.prop@, self.config.power.value@),
            }
        } else {
            step == (KeyStep::Pulse { key: AtxKey::Power, millis: SHORT_PRESS_MS })
        }
    }

    /// `step` is the step of a long press of the power key: bound to the plug,
    /// the forced off; bound to a local driver, a long pulse.
    pub open spec fn long_press(self, step: KeyStep) -> bool {
        if self.config.power.driver == AtxDriverType::Miot {
            self.sends(step, self.config.power.off_prop@, self.config.power.off_value@)
        } else {
            step == (KeyStep::Pulse { key: AtxKey::Power, millis: LONG_PRESS_MS })
        }
    }

    /// `step` is the step of a press of the reset key: bound to the plug, the
    /// action's property; bound to a local driver, a pulse.
    pub open spec fn reset_press(self, step: KeyStep) -> bool {
        if self.config.reset.driver == AtxDriverType::Miot {
            self.sends(step, self.config.reset.prop@, self.config.reset.value@)
        } else {
            step == (KeyStep::Pulse { key: AtxKey::Reset, millis: RESET_PRESS_MS })
        }
    }
}

/// The step that writes `value` to `prop` of the plug of `backend`.
fn send(backend: &MiotBackend, prop: &String, value: &String) -> (step: KeyStep)
    ensures
        step matches KeyStep::Send { prop: p, value: v, command } && p == *prop && v == *value
            && backend@.writes(command, prop@, value@),
{
    KeyStep::Send {
        prop: prop.clone(),
        value: value.clone(),
        command: backend.set_command(prop.as_str(), value.as_str()),
    }
}

/// The controller.
#[derive(Debug)]
pub struct AtxController {
    config: AtxControllerConfig,
    power_executor: Option<Handle>,
    reset_executor: Option<Handle>,
    led_sensor: Option<Handle>,
    miot_backend: Option<MiotBackend>,
}

impl View for AtxController {
    type V = ControllerState;

    closed spec fn view(&self) -> ControllerState {
        ControllerState {
            config: self.config,
            power_executor: self.power_executor,
            reset_executor: self.reset_executor,
            led_sensor: self.led_sensor,
            miot_backend: match self.miot_backend {
                Some(b) => Some(b@),
                None => None,
            },
        }
    }
}

impl AtxController {
    /// A controller is well formed at all times.
    #[verifier::type_invariant]
    spec fn inv(&self) -> bool {
        self@.well_formed()
    }

    /// A controller with `config` and no backend yet.
    pub fn new(config: AtxControllerConfig) -> (c: Self)
        ensures
            c@ == ControllerState::fresh(config),
    {
        AtxController {
            config,
            power_executor: None,
            reset_executor: None,
            led_sensor: None,
            miot_backend: None,
        }
    }

    /// A controller that is disabled, with nothing bound.
    pub fn disabled() -> (c: Self)
        ensures
            c@.config.is_default(),
            c@ == ControllerState::fresh(c@.config),
    {
        AtxController::new(AtxControllerConfig::default())
    }

    /// The configuration.
    pub fn config(&self) -> (c: &AtxControllerConfig)
        ensures
            *c == self@.config,
    {
        &self.config
    }

    /// The smart-plug backend, where one is live. It is ready, and has the
    /// connection settings of the configuration.
    pub fn miot_backend(&self) -> (b: Option<&MiotBackend>)
        ensures
            self@.well_formed(),
            match b {
                Some(b) => self@.miot_backend == Some(b@),
                None => self@.miot_backend is None,
            },
    {
        proof {
            use_type_invariant(self);
        }
        self.miot_backend.as_ref()
    }

    /// The local backends that `init` is to be told of: the caller sets up each
    /// and reports the handle of those that came up.
    pub fn init_plan(&self) -> (plan: InitPlan)
        ensures
            plan == self@.plan(),
    {
        AtxController::plan_for(&self.config)
    }

    /// The local backends that a controller with `config` sets up.
    pub fn plan_for(config: &AtxControllerConfig) -> (plan: InitPlan)
        ensures
            plan == ControllerState::fresh(*config).plan(),
    {
        let power = if config.enabled && config.power.driver != AtxDriverType::Miot
            && config.power.is_configured() {
            Some(config.power.clone())
        } else {
            None
        };
        let reset = if config.enabled && config.reset.driver != AtxDriverType::Miot
            && config.reset.is_configured() {
            Some(config.reset.clone())
        } else {
            None
        };
        let led = if config.enabled && config.status.driver == AtxStatusDriverType::Led
            && config.status.is_configured() {
            Some(
                AtxLedConfig {
                    enabled: true,
                    gpio_chip: config.status.gpio_chip.clone(),
                    gpio_pin: config.status.gpio_pin,
                    inverted: config.status.inverted,
                },
            )
        } else {
            None
        };
        InitPlan { power, reset, led }
    }

    /// Brings the backends up. Disabled, nothing happens. Else the smart-plug
    /// backend is made where something is bound to the plug and the connection
    /// is configured, and each local backend of the plan that `report` holds a
    /// handle for is taken over. A backend that did not come up stays absent;
    /// the call succeeds all the same.
    pub fn init(&mut self, report: &InitReport) -> (r: Result<(), AtxError>)
        ensures
            r is Ok,
            final(self)@ == old(self)@.after_init(*report),
            final(self)@.well_formed(),
    {
        proof {
            use_type_invariant(&*self);
        }
        if !self.config.enabled {
            return Ok(());
        }
        if needs_miot_backend(&self.config) && self.config.miot.is_configured() {
            let mut backend = MiotBackend::new(self.config.miot.clone());
            match backend.init() {
                Ok(_) => {
                    self.miot_backend = Some(backend);
                },
                Err(_) => {},
            }
        }
        if self.config.power.driver != AtxDriverType::Miot && self.config.power.is_configured() {
            match report.power {
                Some(h) => {
                    self.power_executor = Some(h);
                },
                None => {},
            }
        }
        if self.config.reset.driver != AtxDriverType::Miot && self.config.reset.is_configured() {
            match report.reset {
                Some(h) => {
                    self.reset_executor = Some(h);
                },
                None => {},
            }
        }
        if self.config.status.driver == AtxStatusDriverType::Led
            && self.config.status.is_configured() {
            match report.led {
                Some(h) => {
                    self.led_sensor = Some(h);
                },
                None => {},
            }
        }
        Ok(())
    }

    /// Tears every backend down, takes `new_config`, and brings the backends up
    /// as `init` does. `report` answers the plan of `new_config`.
    pub fn reload(&mut self, new_config: AtxControllerConfig, report: &InitReport) -> (r: Result<
        (),
        AtxError,
    >)
        ensures
            r is Ok,
            final(self)@ == old(self)@.after_reload(new_config, *report),
            final(self)@.well_formed(),
    {
        self.shutdown_internal();
        self.config = new_config;
        self.init(report)
    }

    /// Tears every backend down. The configuration stays, so that the
    /// controller can be initialised again. Never fails.
    pub fn shutdown(&mut self) -> (r: Result<(), AtxError>)
        ensures
            r is Ok,
            final(self)@ == old(self)@.after_shutdown(),
            final(self)@.well_formed(),
    {
        self.shutdown_internal();
        Ok(())
    }

    /// Drops the four handles; what the smart-plug backend answers to its
    /// shutdown is ignored.
    fn shutdown_internal(&mut self)
        ensures
            final(self)@ == old(self)@.after_shutdown(),
    {
        proof {
            use_type_invariant(&*self);
        }
        let mut backend: Option<MiotBackend> = None;
        std::mem::swap(&mut backend, &mut self.miot_backend);
        match backend {
            Some(mut backend) => {
                let _ = backend.shutdown();
            },
            None => {},
        }
        self.power_executor = None;
        self.reset_executor = None;
        self.led_sensor = None;
    }

    /// Whether the feature is enabled.
    pub fn is_available(&self) -> (b: bool)
        ensures
            b == self@.config.enabled,
    {
        self.config.enabled
    }

    /// Whether the power executor is live and initialised.
    pub fn is_power_ready(&self) -> (b: bool)
        ensures
            b == (self@.power_executor matches Some(h) && h.initialized),
    {
        match self.power_executor {
            Some(h) => h.initialized,
            None => false,
        }
    }

    /// Whether the reset executor is live and initialised.
    pub fn is_reset_ready(&self) -> (b: bool)
        ensures
            b == (self@.reset_executor matches Some(h) && h.initialized),
    {
        match self.reset_executor {
            Some(h) => h.initialized,
            None => false,
        }
    }

    /// What the caller is to do to sense the power status.
    pub fn status_query(&self) -> (q: StatusQuery)
        ensures
            self@.asks(q),
    {
        match self.config.status.driver {
            AtxStatusDriverType::Miot => match &self.miot_backend {
                Some(backend) => match backend.status_command(self.config.status.prop.as_str()) {
                    Some(c) => StatusQuery::Run(c),
                    None => StatusQuery::Idle,
                },
                None => StatusQuery::Idle,
            },
            AtxStatusDriverType::Led => match self.led_sensor {
                Some(_) => StatusQuery::ReadLed,
                None => StatusQuery::Idle,
            },
            AtxStatusDriverType::Disabled => StatusQuery::Idle,
        }
    }

    /// The power status, given what sensing brought. Never fails: whatever
    /// went wrong in sensing is `Unknown`.
    pub fn resolve_status(&self, reading: &StatusReading) -> (s: PowerStatus)
        ensures
            s == self@.resolved_status(*reading),
    {
        match self.config.status.driver {
            AtxStatusDriverType::Miot => match (&self.miot_backend, reading) {
                (Some(backend), StatusReading::Ran(outcome)) => {
                    match backend.get_power_status(self.config.status.on_value.as_str(), outcome) {
                        Ok(s) => s,
                        Err(_) => PowerStatus::Unknown,
                    }
                },
                _ => PowerStatus::Unknown,
            },
            AtxStatusDriverType::Led => match (self.led_sensor, reading) {
                (Some(_), StatusReading::Led(Some(s))) => *s,
                _ => PowerStatus::Unknown,
            },
            AtxStatusDriverType::Disabled => PowerStatus::Unknown,
        }
    }

    /// The power status, given what sensing brought. Always `Ok`.
    pub fn power_status(&self, reading: &StatusReading) -> (r: Result<PowerStatus, AtxError>)
        ensures
            r == Ok::<PowerStatus, AtxError>(self@.resolved_status(*reading)),
    {
        Ok(self.resolve_status(reading))
    }

    /// The snapshot of the controller, given what sensing brought.
    pub fn state(&self, reading: &StatusReading) -> (s: AtxState)
        ensures
            s == self@.snapshot(*reading),
            self@.well_formed(),
    {
        proof {
            use_type_invariant(self);
        }
        let power_status = self.resolve_status(reading);
        let power_configured = self.config.power.is_configured() && (self.config.power.driver
            != AtxDriverType::Miot || self.miot_backend.is_some());
        let reset_configured = self.config.reset.is_configured() && (self.config.reset.driver
            != AtxDriverType::Miot || self.miot_backend.is_some());
        let status_supported = match self.config.status.driver {
            AtxStatusDriverType::Led => match self.led_sensor {
                Some(h) => h.initialized,
                None => false,
            },
            AtxStatusDriverType::Miot => match &self.miot_backend {
                Some(backend) => backend.is_initialized(),
                None => false,
            },
            AtxStatusDriverType::Disabled => false,
        };
        AtxState {
            available: self.config.enabled,
            power_configured,
            reset_configured,
            power_status,
            status_supported,
        }
    }

    /// The snapshot as an event: it carries the power status.
    pub fn current_state_event(&self, reading: &StatusReading) -> (e: AtxEvent)
        ensures
            e == (AtxEvent::StateChanged { power_status: self@.resolved_status(*reading) }),
    {
        let state = self.state(reading);
        AtxEvent::StateChanged { power_status: state.power_status }
    }

    /// Short press of the power key.
    ///
    /// Fails where the backend of the power key is absent, and only there. Else
    /// the step is a short pulse for a local driver. For the smart plug it is
    /// `Sense` while `sensed` is `None`; with a status, it sends the forced off
    /// where the host is on and the power-on property where it is off or
    /// unknown.
    pub fn power_short(&self, sensed: Option<PowerStatus>) -> (r: Result<KeyStep, AtxError>)
        ensures
            match r {
                Ok(step) => self@.unavailable(AtxKey::Power) is None && self@.short_press(
                    sensed,
                    step,
                ),
                Err(e) => self@.unavailable(AtxKey::Power) == Some(e),
            },
    {
        if self.config.power.driver == AtxDriverType::Miot {
            match &self.miot_backend {
                None => Err(AtxError::MiotNotInitialized),
                Some(backend) => match sensed {
                    None => Ok(KeyStep::Sense),
                    Some(PowerStatus::On) => Ok(
                        send(backend, &self.config.power.off_prop, &self.config.power.off_value),
                    ),
                    Some(_) => Ok(
                        send(backend, &self.config.power.prop, &self.config.power.value),
                    ),
                },
            }
        } else {
            match self.power_executor {
                None => Err(AtxError::PowerNotConfigured),
                Some(_) => Ok(KeyStep::Pulse { key: AtxKey::Power, millis: SHORT_PRESS_MS }),
            }
        }
    }

    /// Long press of the power key: forces the host off, whatever its status.
    ///
    /// Fails where the backend of the power key is absent, and only there. Else
    /// the step sends the forced off to the smart plug, or is a long pulse for a
    /// local driver.
    pub fn power_long(&self) -> (r: Result<KeyStep, AtxError>)
        ensures
            match r {
                Ok(step) => self@.unavailable(AtxKey::Power) is None && self@.long_press(step),
                Err(e) => self@.unavailable(AtxKey::Power) == Some(e),
            },
    {
        if self.config.power.driver == AtxDriverType::Miot {
            match &self.miot_backend {
                None => Err(AtxError::MiotNotInitialized),
                Some(backend) => Ok(
                    send(backend, &self.config.power.off_prop, &self.config.power.off_value),
                ),
            }
        } else {
            match self.power_executor {
                None => Err(AtxError::PowerNotConfigured),
                Some(_) => Ok(KeyStep::Pulse { key: AtxKey::Power, millis: LONG_PRESS_MS }),
            }
        }
    }

    /// Press of the reset key.
    ///
    /// Fails where the backend of the reset key is absent, and only there. Else
    /// the step sends the reset property to the smart plug, or is a pulse for a
    /// local driver.
    pub fn reset(&self) -> (r: Result<KeyStep, AtxError>)
        ensures
            match r {
                Ok(step) => self@.unavailable(AtxKey::Reset) is None && self@.reset_press(step),
                Err(e) => self@.unavailable(AtxKey::Reset) == Some(e),
            },
    {
        if self.config.reset.driver == AtxDriverType::Miot {
            match &self.miot_backend {
                None => Err(AtxError::MiotNotInitialized),
                Some(backend) => Ok(
                    send(backend, &self.config.reset.prop, &self.config.reset.value),
                ),
            }
        } else {
            match self.reset_executor {
                None => Err(AtxError::ResetNotConfigured),
                Some(_) => Ok(KeyStep::Pulse { key: AtxKey::Reset, millis: RESET_PRESS_MS }),
            }
        }
    }
}

/// A new controller is well formed, and `init`, `shutdown` and `reload` keep a
/// controller so. A well-formed controller that is disabled has no backend, and
/// its smart-plug backend, where it has one, is ready.
pub proof fn lemma_well_formed(
    s: ControllerState,
    config: AtxControllerConfig,
    report: InitReport,
)
    ensures
        ControllerState::fresh(config).well_formed(),
        s.well_formed() ==> s.after_init(report).well_formed(),
        s.after_shutdown().well_formed(),
        s.after_reload(config, report).well_formed(),
        s.well_formed() && !s.config.enabled ==> s.no_backend(),
        s.well_formed() ==> (s.miot_backend matches Some(b) ==> b.initialized),
{
}

/// A controller with the default configuration offers nothing, before and after
/// it is initialised, whatever the set-up reports and whatever sensing brings:
/// it is not available, no key is configured, the power status is unknown and
/// status sensing is not supported.
pub proof fn lemma_default_offers_nothing(
    config: AtxControllerConfig,
    report: InitReport,
    reading: StatusReading,
)
    requires
        config.is_default(),
    ensures
        !config.enabled,
        ControllerState::fresh(config).snapshot(reading) == AtxState::unavailable(),
        ControllerState::fresh(config).after_init(report).snapshot(reading)
            == AtxState::unavailable(),
{
}

/// Initialising a disabled controller changes nothing and asks for no local
/// backend; one that had no backend has none afterwards.
pub proof fn lemma_init_disabled(s: ControllerState, report: InitReport)
    requires
        !s.config.enabled,
    ensures
        s.after_init(report) == s,
        s.plan() == (InitPlan { power: None, reset: None, led: None }),
        ControllerState::fresh(s.config).after_init(report).no_backend(),
{
}

/// Initialising sets up exactly the backends that are due and came up: on a
/// controller without backends, each backend is live afterwards if and only if
/// it was due and, for a local one, the set-up reported a handle.
pub proof fn lemma_init_fresh(config: AtxControllerConfig, report: InitReport)
    ensures
        ({
            let s = ControllerState::fresh(config);
            let t = s.after_init(report);
            &&& t.config == config
            &&& (t.miot_backend is Some <==> s.wants_miot())
            &&& (t.power_executor is Some <==> s.wants_executor(AtxKey::Power) && report.power
                is Some)
            &&& (t.reset_executor is Some <==> s.wants_executor(AtxKey::Reset) && report.reset
                is Some)
            &&& (t.led_sensor is Some <==> s.wants_led() && report.led is Some)
        }),
{
}

/// Shutting down twice is shutting down once: the configuration stays and no
/// backend is left.
pub proof fn lemma_shutdown_twice(s: ControllerState)
    ensures
        s.after_shutdown().config == s.config,
        s.after_shutdown().no_backend(),
        s.after_shutdown().after_shutdown() == s.after_shutdown(),
{
}

/// After a reload the controller is what a new controller with the new
/// configuration is after its `init`: nothing of the old configuration or of the
/// old backends is left, so two controllers that reload alike are alike.
pub proof fn lemma_reload_forgets(
    s: ControllerState,
    t: ControllerState,
    new_config: AtxControllerConfig,
    report: InitReport,
    reading: StatusReading,
)
    ensures
        s.after_reload(new_config, report) == ControllerState::fresh(new_config).after_init(
            report,
        ),
        s.after_reload(new_config, report) == t.after_reload(new_config, report),
        s.after_reload(new_config, report).snapshot(reading) == t.after_reload(
            new_config,
            report,
        ).snapshot(reading),
{
}

/// Where sensing has nothing to ask, the power status is unknown, whatever the
/// reading is said to be.
pub proof fn lemma_idle_is_unknown(s: ControllerState, reading: StatusReading)
    requires
        s.asks(StatusQuery::Idle),
    ensures
        s.resolved_status(reading) == PowerStatus::Unknown,
{
}

/// A key whose backend is absent cannot be pressed, and the reason is one of the
/// not-configured errors. On a controller without backends that holds of both
/// keys.
pub proof fn lemma_absent_backend_refuses(s: ControllerState, key: AtxKey)
    ensures
        s.unavailable(key) matches Some(e) ==> e.not_configured(),
        s.key_config(key).driver == AtxDriverType::Miot && s.miot_backend is None
            ==> s.unavailable(key) is Some,
        s.key_config(key).driver != AtxDriverType::Miot && s.executor(key) is None
            ==> s.unavailable(key) is Some,
        s.no_backend() ==> s.unavailable(key) is Some,
{
}

/// On the smart plug, a short press with the host on is a long press: both send
/// the forced off.
pub proof fn lemma_short_press_on_forces_off(s: ControllerState, step: KeyStep)
    requires
        s.config.power.driver == AtxDriverType::Miot,
    ensures
        s.short_press(Some(PowerStatus::On), step) == s.long_press(step),
        s.short_press(Some(PowerStatus::Off), step) == s.short_press(
            Some(PowerStatus::Unknown),
            step,
        ),
{
}

} // verus!
