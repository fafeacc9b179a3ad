use neotron_bmc::power::{
    exit_reset_step, led_blink_step, power_step, ButtonEvent, DcPowerState,
};

#[test]
fn short_press_while_off_powers_on() {
    let (next, actions) = power_step(DcPowerState::Off, ButtonEvent::PowerShortPress);
    assert_eq!(next, DcPowerState::Starting);
    assert_eq!(actions.set_sys_reset, Some(false));
    assert_eq!(actions.set_dc_on, Some(true));
    assert_eq!(actions.set_led_power, Some(true));
    assert!(actions.schedule_exit_reset);
    assert_eq!(actions.set_host_irq_mask, Some(false));
}

#[test]
fn release_while_starting_reaches_on() {
    let (next, actions) = power_step(DcPowerState::Starting, ButtonEvent::PowerRelease);
    assert_eq!(next, DcPowerState::On);
    assert_eq!(actions.set_sys_reset, None);
    assert_eq!(actions.set_dc_on, None);
}

#[test]
fn long_press_while_on_powers_off() {
    let (next, actions) = power_step(DcPowerState::On, ButtonEvent::PowerLongPress);
    assert_eq!(next, DcPowerState::Off);
    assert_eq!(actions.set_sys_reset, Some(false));
    assert_eq!(actions.set_dc_on, Some(false));
    assert_eq!(actions.set_host_irq_mask, Some(true));
    assert!(actions.disable_transport);
    assert!(actions.restart_led_blink);
}

#[test]
fn short_press_while_on_or_starting_changes_nothing() {
    for state in [DcPowerState::On, DcPowerState::Starting] {
        let (next, actions) = power_step(state, ButtonEvent::PowerShortPress);
        assert_eq!(next, state);
        assert_eq!(actions.set_dc_on, None);
        assert_eq!(actions.set_sys_reset, None);
    }
}

#[test]
fn long_press_while_off_or_starting_changes_nothing() {
    for state in [DcPowerState::Off, DcPowerState::Starting] {
        let (next, actions) = power_step(state, ButtonEvent::PowerLongPress);
        assert_eq!(next, state);
        assert_eq!(actions.set_dc_on, None);
    }
}

#[test]
fn reset_tap_pulses_reset_only_while_powered() {
    for state in [DcPowerState::Starting, DcPowerState::On] {
        let (next, actions) = power_step(state, ButtonEvent::ResetShortPress);
        assert_eq!(next, state);
        assert_eq!(actions.set_sys_reset, Some(false));
        assert!(actions.schedule_exit_reset);
    }
    let (next, actions) = power_step(DcPowerState::Off, ButtonEvent::ResetShortPress);
    assert_eq!(next, DcPowerState::Off);
    assert_eq!(actions.set_sys_reset, None);
    assert!(!actions.schedule_exit_reset);
}

#[test]
fn exit_reset_releases_only_when_on() {
    assert!(exit_reset_step(DcPowerState::On));
    assert!(!exit_reset_step(DcPowerState::Starting));
    assert!(!exit_reset_step(DcPowerState::Off));
}

#[test]
fn led_blinks_only_while_off() {
    assert_eq!(led_blink_step(DcPowerState::Off, false), (Some(true), true));
    assert_eq!(led_blink_step(DcPowerState::Off, true), (Some(false), true));
    assert_eq!(led_blink_step(DcPowerState::On, true), (None, false));
    assert_eq!(led_blink_step(DcPowerState::Starting, false), (None, false));
}
