use atx::controller::{
    needs_miot_backend, AtxController, AtxControllerConfig, AtxEvent, AtxKey, Handle, InitPlan,
    InitReport, KeyStep, StatusQuery, StatusReading, LONG_PRESS_MS, RESET_PRESS_MS,
    SHORT_PRESS_MS,
};
use atx::error::AtxError;
use atx::miot::{CommandOutcome, MiotCommand};
use atx::types::{
    ActiveLevel, AtxDriverType, AtxKeyConfig, AtxLedConfig, AtxState, AtxStatusConfig,
    AtxStatusDriverType, MiotConfig, PowerStatus,
};

const NOTHING: InitReport = InitReport { power: None, reset: None, led: None };

const ALL_UP: InitReport = InitReport {
    power: Some(Handle { initialized: true }),
    reset: Some(Handle { initialized: true }),
    led: Some(Handle { initialized: true }),
};

fn gpio_key(pin: u32) -> AtxKeyConfig {
    AtxKeyConfig {
        driver: AtxDriverType::Gpio,
        device: "/dev/gpiochip0".to_string(),
        pin,
        active_level: ActiveLevel::High,
        ..AtxKeyConfig::default()
    }
}

fn miot_power() -> AtxKeyConfig {
    AtxKeyConfig {
        driver: AtxDriverType::Miot,
        prop: "on".to_string(),
        value: "True".to_string(),
        off_prop: "on".to_string(),
        off_value: "False".to_string(),
        ..AtxKeyConfig::default()
    }
}

fn miot_reset() -> AtxKeyConfig {
    AtxKeyConfig {
        driver: AtxDriverType::Miot,
        prop: "name".to_string(),
        value: "1".to_string(),
        ..AtxKeyConfig::default()
    }
}

fn miot_status() -> AtxStatusConfig {
    AtxStatusConfig {
        driver: AtxStatusDriverType::Miot,
        prop: "on".to_string(),
        on_value: "True".to_string(),
        off_value: "False".to_string(),
        ..AtxStatusConfig::default()
    }
}

fn led_status() -> AtxStatusConfig {
    AtxStatusConfig {
        driver: AtxStatusDriverType::Led,
        gpio_chip: "/dev/gpiochip1".to_string(),
        gpio_pin: 5,
        inverted: true,
        ..AtxStatusConfig::default()
    }
}

fn plug() -> MiotConfig {
    MiotConfig { did: "2094828328".to_string(), ..MiotConfig::default() }
}

fn local_config() -> AtxControllerConfig {
    AtxControllerConfig {
        enabled: true,
        power: gpio_key(17),
        reset: gpio_key(27),
        status: led_status(),
        miot: MiotConfig::default(),
    }
}

fn plug_config() -> AtxControllerConfig {
    AtxControllerConfig {
        enabled: true,
        power: miot_power(),
        reset: miot_reset(),
        status: miot_status(),
        miot: plug(),
    }
}

fn up(config: AtxControllerConfig, report: InitReport) -> AtxController {
    let mut controller = AtxController::new(config);
    assert_eq!(controller.init(&report), Ok(()));
    controller
}

fn set(prop: &str, value: &str) -> KeyStep {
    KeyStep::Send {
        prop: prop.to_string(),
        value: value.to_string(),
        command: MiotCommand {
            program: "mijiaAPI".to_string(),
            args: vec![
                "set".to_string(),
                "--did".to_string(),
                "2094828328".to_string(),
                "--prop_name".to_string(),
                prop.to_string(),
                "--value".to_string(),
                value.to_string(),
            ],
            timeout_secs: 30,
        },
    }
}

fn said(stdout: &str) -> StatusReading {
    StatusReading::Ran(CommandOutcome::Exited {
        code: Some(0),
        stdout: stdout.to_string(),
        stderr: String::new(),
    })
}

#[test]
fn test_controller_config_default() {
    let config = AtxControllerConfig::default();
    assert!(!config.enabled);
    assert!(!config.power.is_configured());
    assert!(!config.reset.is_configured());
    assert!(!config.status.is_configured());
}

#[test]
fn test_controller_creation() {
    let controller = AtxController::disabled();
    assert!(controller.miot_backend().is_none());
    assert_eq!(*controller.config(), AtxControllerConfig::default());
}

#[test]
fn test_controller_disabled_state() {
    let controller = AtxController::disabled();
    let state = controller.state(&StatusReading::Idle);
    assert!(!state.available);
    assert!(!state.power_configured);
    assert!(!state.reset_configured);
}

#[test]
fn test_controller_init_disabled() {
    let mut controller = AtxController::disabled();
    let result = controller.init(&NOTHING);
    assert!(result.is_ok());
}

#[test]
fn test_controller_is_available() {
    let controller = AtxController::disabled();
    assert!(!controller.is_available());

    let config = AtxControllerConfig { enabled: true, ..Default::default() };
    let controller = AtxController::new(config);
    assert!(controller.is_available());
}

#[test]
fn test_default_controller_offers_nothing() {
    let mut controller = AtxController::disabled();
    for reading in
        [StatusReading::Idle, StatusReading::Led(Some(PowerStatus::On)), said("p 值为 True")]
    {
        assert_eq!(
            controller.state(&reading),
            AtxState {
                available: false,
                power_configured: false,
                reset_configured: false,
                power_status: PowerStatus::Unknown,
                status_supported: false,
            }
        );
    }
    assert_eq!(controller.init(&ALL_UP), Ok(()));
    assert_eq!(controller.state(&StatusReading::Idle), AtxState::default());
    assert_eq!(controller.status_query(), StatusQuery::Idle);
}

#[test]
fn test_init_disabled_makes_no_backend() {
    let mut config = plug_config();
    config.enabled = false;
    config.power = gpio_key(1);
    config.status = led_status();
    assert_eq!(
        AtxController::plan_for(&config),
        InitPlan { power: None, reset: None, led: None }
    );
    let mut controller = AtxController::new(config);
    assert_eq!(controller.init(&ALL_UP), Ok(()));
    assert!(controller.miot_backend().is_none());
    assert!(!controller.is_power_ready());
    assert!(!controller.is_reset_ready());
    assert!(!controller.state(&StatusReading::Idle).status_supported);
    assert_eq!(controller.power_short(None), Err(AtxError::PowerNotConfigured));
    assert_eq!(controller.reset(), Err(AtxError::MiotNotInitialized));
}

#[test]
fn test_needs_miot_backend() {
    assert!(!needs_miot_backend(&AtxControllerConfig::default()));
    assert!(!needs_miot_backend(&local_config()));
    assert!(needs_miot_backend(&plug_config()));
    let mut config = local_config();
    config.reset.driver = AtxDriverType::Miot;
    assert!(needs_miot_backend(&config));
    let mut config = local_config();
    config.power.driver = AtxDriverType::Miot;
    assert!(needs_miot_backend(&config));
    let mut config = local_config();
    config.status.driver = AtxStatusDriverType::Miot;
    assert!(needs_miot_backend(&config));
}

#[test]
fn test_init_plan_local() {
    let controller = AtxController::new(local_config());
    assert_eq!(
        controller.init_plan(),
        InitPlan {
            power: Some(gpio_key(17)),
            reset: Some(gpio_key(27)),
            led: Some(AtxLedConfig {
                enabled: true,
                gpio_chip: "/dev/gpiochip1".to_string(),
                gpio_pin: 5,
                inverted: true,
            }),
        }
    );
}

#[test]
fn test_init_plan_leaves_out_what_is_not_due() {
    assert_eq!(
        AtxController::plan_for(&plug_config()),
        InitPlan { power: None, reset: None, led: None }
    );
    let mut config = local_config();
    config.power.device = String::new();
    config.reset.driver = AtxDriverType::Disabled;
    config.status.gpio_chip = String::new();
    assert_eq!(
        AtxController::plan_for(&config),
        InitPlan { power: None, reset: None, led: None }
    );
}

#[test]
fn test_init_takes_over_what_came_up() {
    let report = InitReport {
        power: Some(Handle { initialized: true }),
        reset: None,
        led: Some(Handle { initialized: false }),
    };
    let controller = up(local_config(), report);
    assert!(controller.is_power_ready());
    assert!(!controller.is_reset_ready());
    assert!(controller.miot_backend().is_none());
    assert_eq!(
        controller.state(&StatusReading::Led(Some(PowerStatus::On))),
        AtxState {
            available: true,
            power_configured: true,
            reset_configured: true,
            power_status: PowerStatus::On,
            status_supported: false,
        }
    );
    assert_eq!(controller.reset(), Err(AtxError::ResetNotConfigured));
    assert_eq!(
        controller.power_short(None),
        Ok(KeyStep::Pulse { key: AtxKey::Power, millis: 500 })
    );
}

#[test]
fn test_init_ignores_handles_that_were_not_due() {
    let controller = up(plug_config(), ALL_UP);
    assert!(!controller.is_power_ready());
    assert!(!controller.is_reset_ready());
    let backend = controller.miot_backend().expect("the plug is configured");
    assert!(backend.is_initialized());
    assert_eq!(*backend.config(), plug());
}

#[test]
fn test_init_without_plug_connection() {
    let mut config = plug_config();
    config.miot = MiotConfig::default();
    let controller = up(config, NOTHING);
    assert!(controller.miot_backend().is_none());
    let state = controller.state(&said("p 值为 True"));
    assert_eq!(
        state,
        AtxState {
            available: true,
            power_configured: false,
            reset_configured: false,
            power_status: PowerStatus::Unknown,
            status_supported: false,
        }
    );
    assert_eq!(controller.power_short(None), Err(AtxError::MiotNotInitialized));
    assert_eq!(controller.power_short(Some(PowerStatus::On)), Err(AtxError::MiotNotInitialized));
    assert_eq!(controller.power_long(), Err(AtxError::MiotNotInitialized));
    assert_eq!(controller.reset(), Err(AtxError::MiotNotInitialized));
    assert_eq!(controller.status_query(), StatusQuery::Idle);
}

#[test]
fn test_failed_init_keeps_an_earlier_handle() {
    let mut controller = up(local_config(), ALL_UP);
    assert_eq!(controller.init(&NOTHING), Ok(()));
    assert!(controller.is_power_ready());
    assert!(controller.is_reset_ready());
    assert!(controller.state(&StatusReading::Idle).status_supported);
}

#[test]
fn test_power_short_on_the_plug_toggles() {
    let controller = up(plug_config(), NOTHING);
    assert_eq!(controller.power_short(None), Ok(KeyStep::Sense));
    assert_eq!(controller.power_short(Some(PowerStatus::On)), Ok(set("on", "False")));
    assert_eq!(controller.power_short(Some(PowerStatus::Off)), Ok(set("on", "True")));
    assert_eq!(controller.power_short(Some(PowerStatus::Unknown)), Ok(set("on", "True")));
}

#[test]
fn test_power_short_sends_distinct_properties() {
    let mut config = plug_config();
    config.power.prop = "wake".to_string();
    config.power.value = "1".to_string();
    config.power.off_prop = "halt".to_string();
    config.power.off_value = "0".to_string();
    let controller = up(config, NOTHING);
    assert_eq!(controller.power_short(Some(PowerStatus::On)), Ok(set("halt", "0")));
    assert_eq!(controller.power_short(Some(PowerStatus::Off)), Ok(set("wake", "1")));
    assert_eq!(controller.power_long(), Ok(set("halt", "0")));
}

#[test]
fn test_power_long_on_the_plug_forces_off() {
    let controller = up(plug_config(), NOTHING);
    assert_eq!(controller.power_long(), Ok(set("on", "False")));
}

#[test]
fn test_reset_on_the_plug() {
    let controller = up(plug_config(), NOTHING);
    assert_eq!(controller.reset(), Ok(set("name", "1")));
}

#[test]
fn test_local_keys_pulse() {
    let controller = up(local_config(), ALL_UP);
    for sensed in [None, Some(PowerStatus::On), Some(PowerStatus::Off), Some(PowerStatus::Unknown)]
    {
        assert_eq!(
            controller.power_short(sensed),
            Ok(KeyStep::Pulse { key: AtxKey::Power, millis: 500 })
        );
    }
    assert_eq!(controller.power_long(), Ok(KeyStep::Pulse { key: AtxKey::Power, millis: 5000 }));
    assert_eq!(controller.reset(), Ok(KeyStep::Pulse { key: AtxKey::Reset, millis: 500 }));
}

#[test]
fn test_pulse_lengths() {
    assert_eq!(SHORT_PRESS_MS, 500);
    assert_eq!(LONG_PRESS_MS, 5000);
    assert_eq!(RESET_PRESS_MS, 500);
    assert!(SHORT_PRESS_MS < LONG_PRESS_MS);
}

#[test]
fn test_actions_without_backend_are_refused() {
    for config in [AtxControllerConfig::default(), local_config(), plug_config()] {
        let controller = AtxController::new(config);
        for result in [
            controller.power_short(None),
            controller.power_short(Some(PowerStatus::On)),
            controller.power_long(),
            controller.reset(),
        ] {
            match result {
                Err(e) => assert!(e.is_not_configured()),
                Ok(step) => panic!("a step without a backend: {:?}", step),
            }
        }
    }
    let controller = AtxController::new(local_config());
    assert_eq!(controller.power_short(None), Err(AtxError::PowerNotConfigured));
    assert_eq!(controller.power_long(), Err(AtxError::PowerNotConfigured));
    assert_eq!(controller.reset(), Err(AtxError::ResetNotConfigured));
}

#[test]
fn test_mixed_bindings() {
    let mut config = local_config();
    config.power = miot_power();
    config.miot = plug();
    let controller = up(config, ALL_UP);
    assert!(!controller.is_power_ready());
    assert!(controller.is_reset_ready());
    assert_eq!(controller.power_short(None), Ok(KeyStep::Sense));
    assert_eq!(controller.status_query(), StatusQuery::ReadLed);
    assert_eq!(controller.reset(), Ok(KeyStep::Pulse { key: AtxKey::Reset, millis: 500 }));
    assert_eq!(
        controller.state(&StatusReading::Led(Some(PowerStatus::Off))),
        AtxState {
            available: true,
            power_configured: true,
            reset_configured: true,
            power_status: PowerStatus::Off,
            status_supported: true,
        }
    );
}

#[test]
fn test_status_query() {
    let controller = up(plug_config(), NOTHING);
    assert_eq!(
        controller.status_query(),
        StatusQuery::Run(MiotCommand {
            program: "mijiaAPI".to_string(),
            args: vec![
                "get".to_string(),
                "--did".to_string(),
                "2094828328".to_string(),
                "--prop_name".to_string(),
                "on".to_string(),
            ],
            timeout_secs: 30,
        })
    );
    assert_eq!(up(local_config(), ALL_UP).status_query(), StatusQuery::ReadLed);
    assert_eq!(up(local_config(), NOTHING).status_query(), StatusQuery::Idle);
    assert_eq!(AtxController::new(plug_config()).status_query(), StatusQuery::Idle);
}

#[test]
fn test_resolve_status_on_the_plug() {
    let controller = up(plug_config(), NOTHING);
    assert_eq!(controller.resolve_status(&said("dev 的 on 值为 True\n")), PowerStatus::On);
    assert_eq!(controller.resolve_status(&said("dev 的 on 值为 true\n")), PowerStatus::On);
    assert_eq!(controller.resolve_status(&said("dev 的 on 值为 False\n")), PowerStatus::Off);
    assert_eq!(controller.resolve_status(&said("noise\n")), PowerStatus::Unknown);
    assert_eq!(controller.resolve_status(&StatusReading::Idle), PowerStatus::Unknown);
    assert_eq!(
        controller.resolve_status(&StatusReading::Led(Some(PowerStatus::On))),
        PowerStatus::Unknown
    );
    assert_eq!(
        controller.resolve_status(&StatusReading::Ran(CommandOutcome::TimedOut)),
        PowerStatus::Unknown
    );
    assert_eq!(
        controller.resolve_status(&StatusReading::Ran(CommandOutcome::Exited {
            code: Some(1),
            stdout: "dev 的 on 值为 True\n".to_string(),
            stderr: String::new(),
        })),
        PowerStatus::Unknown
    );
    assert_eq!(
        AtxController::new(plug_config()).resolve_status(&said("dev 的 on 值为 True\n")),
        PowerStatus::Unknown
    );
}

#[test]
fn test_resolve_status_on_the_led() {
    let controller = up(local_config(), ALL_UP);
    assert_eq!(
        controller.resolve_status(&StatusReading::Led(Some(PowerStatus::On))),
        PowerStatus::On
    );
    assert_eq!(
        controller.resolve_status(&StatusReading::Led(Some(PowerStatus::Off))),
        PowerStatus::Off
    );
    assert_eq!(controller.resolve_status(&StatusReading::Led(None)), PowerStatus::Unknown);
    assert_eq!(controller.resolve_status(&said("dev 的 on 值为 True\n")), PowerStatus::Unknown);
    assert_eq!(
        up(local_config(), NOTHING).resolve_status(&StatusReading::Led(Some(PowerStatus::On))),
        PowerStatus::Unknown
    );
}

#[test]
fn test_power_status_never_fails() {
    let controller = up(plug_config(), NOTHING);
    assert_eq!(controller.power_status(&said("dev 的 on 值为 True")), Ok(PowerStatus::On));
    assert_eq!(
        controller.power_status(&StatusReading::Ran(CommandOutcome::SpawnFailed {
            reason: "gone".to_string()
        })),
        Ok(PowerStatus::Unknown)
    );
    assert_eq!(
        AtxController::disabled().power_status(&StatusReading::Idle),
        Ok(PowerStatus::Unknown)
    );
}

#[test]
fn test_state_on_the_plug() {
    let controller = up(plug_config(), NOTHING);
    assert_eq!(
        controller.state(&said("dev 的 on 值为 True")),
        AtxState {
            available: true,
            power_configured: true,
            reset_configured: true,
            power_status: PowerStatus::On,
            status_supported: true,
        }
    );
}

#[test]
fn test_current_state_event() {
    let controller = up(plug_config(), NOTHING);
    assert_eq!(
        controller.current_state_event(&said("dev 的 on 值为 False")),
        AtxEvent::StateChanged { power_status: PowerStatus::Off }
    );
    assert_eq!(
        AtxController::disabled().current_state_event(&StatusReading::Idle),
        AtxEvent::StateChanged { power_status: PowerStatus::Unknown }
    );
}

#[test]
fn test_shutdown_twice() {
    let mut controller = up(local_config(), ALL_UP);
    assert_eq!(controller.shutdown(), Ok(()));
    assert!(!controller.is_power_ready());
    assert!(!controller.is_reset_ready());
    assert_eq!(*controller.config(), local_config());
    assert_eq!(controller.shutdown(), Ok(()));
    assert!(!controller.is_power_ready());
    assert_eq!(*controller.config(), local_config());
    assert_eq!(controller.power_short(None), Err(AtxError::PowerNotConfigured));

    let mut controller = up(plug_config(), NOTHING);
    assert_eq!(controller.shutdown(), Ok(()));
    assert!(controller.miot_backend().is_none());
    assert_eq!(controller.shutdown(), Ok(()));
    assert!(controller.miot_backend().is_none());

    let mut controller = AtxController::disabled();
    assert_eq!(controller.shutdown(), Ok(()));
    assert_eq!(controller.shutdown(), Ok(()));
}

#[test]
fn test_init_after_shutdown() {
    let mut controller = up(plug_config(), NOTHING);
    assert_eq!(controller.shutdown(), Ok(()));
    assert_eq!(controller.power_long(), Err(AtxError::MiotNotInitialized));
    assert_eq!(controller.init(&NOTHING), Ok(()));
    assert_eq!(controller.power_long(), Ok(set("on", "False")));
}

#[test]
fn test_reload_leaves_nothing_of_before() {
    let mut controller = up(local_config(), ALL_UP);
    assert_eq!(controller.reload(plug_config(), &NOTHING), Ok(()));
    assert_eq!(*controller.config(), plug_config());
    assert!(!controller.is_power_ready());
    assert!(!controller.is_reset_ready());
    assert_eq!(
        controller.state(&StatusReading::Led(Some(PowerStatus::On))),
        AtxState {
            available: true,
            power_configured: true,
            reset_configured: true,
            power_status: PowerStatus::Unknown,
            status_supported: true,
        }
    );

    assert_eq!(controller.reload(local_config(), &NOTHING), Ok(()));
    assert!(controller.miot_backend().is_none());
    assert_eq!(
        controller.state(&said("dev 的 on 值为 True")),
        AtxState {
            available: true,
            power_configured: true,
            reset_configured: true,
            power_status: PowerStatus::Unknown,
            status_supported: false,
        }
    );

    assert_eq!(controller.reload(AtxControllerConfig::default(), &ALL_UP), Ok(()));
    assert_eq!(controller.state(&StatusReading::Idle), AtxState::default());
}

#[test]
fn test_reload_is_a_new_controller() {
    let report = InitReport {
        power: Some(Handle { initialized: true }),
        reset: Some(Handle { initialized: false }),
        led: None,
    };
    let mut reloaded = up(plug_config(), ALL_UP);
    assert_eq!(reloaded.reload(local_config(), &report), Ok(()));
    let new = up(local_config(), report);
    for reading in [StatusReading::Idle, StatusReading::Led(Some(PowerStatus::On))] {
        assert_eq!(reloaded.state(&reading), new.state(&reading));
    }
    assert_eq!(reloaded.is_power_ready(), new.is_power_ready());
    assert_eq!(reloaded.is_reset_ready(), new.is_reset_ready());
    assert!(reloaded.is_power_ready());
    assert!(!reloaded.is_reset_ready());
    assert_eq!(reloaded.reset(), new.reset());
    assert_eq!(reloaded.status_query(), new.status_query());
}

#[test]
fn test_config_clone() {
    assert_eq!(plug_config().clone(), plug_config());
    assert_ne!(plug_config(), local_config());
}
