//! The power sequencer: a state machine over the host's DC power rail and
//! reset line, driven by debounced button edges.
//!
//! Conventions for the two output lines: `true` drives the line high. The
//! system reset line is active low, so "assert reset" means driving it low
//! (`false`) and "release reset" means driving it high (`true`). The DC rail
//! enable and the power LED are active high.

use vstd::prelude::*;

verus! {

/// The states we can be in controlling the DC power.
#[derive(Clone, Copy, Debug, PartialEq, Eq, Structural)]
pub enum DcPowerState {
    /// We are fully off.
    Off,
    /// We have just enabled the DC power; long presses of the power button
    /// are ignored, and so are further short presses, until the press that
    /// powered us on is released.
    Starting,
    /// We are fully on. A long press of the power button turns us off.
    On,
}

/// A debounced edge of one of the buttons, as interpreted by the power
/// sequencer.
#[derive(Clone, Copy, Debug, PartialEq, Eq, Structural)]
pub enum ButtonEvent {
    /// The power button was tapped (short-press detector fired rising).
    PowerShortPress,
    /// The power button was let go (short-press detector fired falling).
    PowerRelease,
    /// The power button was held down (long-press detector fired rising).
    PowerLongPress,
    /// The reset button was tapped.
    ResetShortPress,
}

/// The hardware actions one step of the power sequencer asks for. A `None`
/// leaves the line as it is; the caller performs the rest.
#[derive(Clone, Copy, Debug, PartialEq, Eq, Structural)]
pub struct PowerActions {
    /// Drive the system reset line (`false` asserts reset).
    pub set_sys_reset: Option<bool>,
    /// Drive the DC rail enable line.
    pub set_dc_on: Option<bool>,
    /// Drive the power LED.
    pub set_led_power: Option<bool>,
    /// Arm (or idempotently re-arm) the one-shot delayed "exit reset" action.
    pub schedule_exit_reset: bool,
    /// Mask (`true`) or unmask (`false`) the host service interrupt line.
    pub set_host_irq_mask: Option<bool>,
    /// Reset the bus transport engine.
    pub disable_transport: bool,
    /// Resume the idle LED blink task.
    pub restart_led_blink: bool,
}

impl PowerActions {
    /// No hardware action at all.
    pub open spec fn spec_none() -> PowerActions {
        PowerActions {
            set_sys_reset: None,
            set_dc_on: None,
            set_led_power: None,
            schedule_exit_reset: false,
            set_host_irq_mask: None,
            disable_transport: false,
            restart_led_blink: false,
        }
    }

    /// Actions on the Off -> Starting transition: assert reset, energize the
    /// rail, light the LED, schedule the delayed exit from reset, and unmask
    /// the host service line.
    pub open spec fn spec_power_on() -> PowerActions {
        PowerActions {
            set_sys_reset: Some(false),
            set_dc_on: Some(true),
            set_led_power: Some(true),
            schedule_exit_reset: true,
            set_host_irq_mask: Some(false),
            disable_transport: false,
            restart_led_blink: false,
        }
    }

    /// Actions on the On -> Off transition: disable the bus transport, assert
    /// reset, de-energize the rail, mask the host service line, and resume
    /// the idle blink.
    pub open spec fn spec_power_off() -> PowerActions {
        PowerActions {
            set_sys_reset: Some(false),
            set_dc_on: Some(false),
            set_led_power: Some(false),
            schedule_exit_reset: false,
            set_host_irq_mask: Some(true),
            disable_transport: true,
            restart_led_blink: true,
        }
    }

    /// Actions on a reset tap while powered: pulse reset low and re-arm the
    /// delayed exit from reset.
    pub open spec fn spec_pulse_reset() -> PowerActions {
        PowerActions {
            set_sys_reset: Some(false),
            set_dc_on: None,
            set_led_power: None,
            schedule_exit_reset: true,
            set_host_irq_mask: None,
            disable_transport: false,
            restart_led_blink: false,
        }
    }
}

/// The next power state after `event` arrives in state `state`.
pub open spec fn spec_power_next(state: DcPowerState, event: ButtonEvent) -> DcPowerState {
    match (state, event) {
        (DcPowerState::Off, ButtonEvent::PowerShortPress) => DcPowerState::Starting,
        (DcPowerState::Starting, ButtonEvent::PowerRelease) => DcPowerState::On,
        (DcPowerState::On, ButtonEvent::PowerLongPress) => DcPowerState::Off,
        _ => state,
    }
}

/// The hardware actions that accompany `event` arriving in state `state`.
pub open spec fn spec_power_actions(state: DcPowerState, event: ButtonEvent) -> PowerActions {
    match (state, event) {
        (DcPowerState::Off, ButtonEvent::PowerShortPress) => PowerActions::spec_power_on(),
        (DcPowerState::On, ButtonEvent::PowerLongPress) => PowerActions::spec_power_off(),
        (DcPowerState::Starting, ButtonEvent::ResetShortPress) => PowerActions::spec_pulse_reset(),
        (DcPowerState::On, ButtonEvent::ResetShortPress) => PowerActions::spec_pulse_reset(),
        _ => PowerActions::spec_none(),
    }
}

/// One step of the power sequencer.
///
/// From Off, a short press powers the system on (into Starting, masking long
/// presses); releasing the button completes the transition to On; from On, a
/// long press powers the system off. A reset tap while Starting or On pulses
/// the reset line and re-arms the delayed exit from reset. Every other
/// combination changes nothing.
pub fn power_step(state: DcPowerState, event: ButtonEvent) -> (r: (DcPowerState, PowerActions))
    ensures
        r.0 == spec_power_next(state, event),
        r.1 == spec_power_actions(state, event),
{
    let none = PowerActions {
        set_sys_reset: None,
        set_dc_on: None,
        set_led_power: None,
        schedule_exit_reset: false,
        set_host_irq_mask: None,
        disable_transport: false,
        restart_led_blink: false,
    };
    match (state, event) {
        (DcPowerState::Off, ButtonEvent::PowerShortPress) => (
            DcPowerState::Starting,
            PowerActions {
                set_sys_reset: Some(false),
                set_dc_on: Some(true),
                set_led_power: Some(true),
                schedule_exit_reset: true,
                set_host_irq_mask: Some(false),
                disable_transport: false,
                restart_led_blink: false,
            },
        ),
        (DcPowerState::Starting, ButtonEvent::PowerRelease) => (DcPowerState::On, none),
        (DcPowerState::On, ButtonEvent::PowerLongPress) => (
            DcPowerState::Off,
            PowerActions {
                set_sys_reset: Some(false),
                set_dc_on: Some(false),
                set_led_power: Some(false),
                schedule_exit_reset: false,
                set_host_irq_mask: Some(true),
                disable_transport: true,
                restart_led_blink: true,
            },
        ),
        (DcPowerState::Starting, ButtonEvent::ResetShortPress)
        | (DcPowerState::On, ButtonEvent::ResetShortPress) => (
            state,
            PowerActions {
                set_sys_reset: Some(false),
                set_dc_on: None,
                set_led_power: None,
                schedule_exit_reset: true,
                set_host_irq_mask: None,
                disable_transport: false,
                restart_led_blink: false,
            },
        ),
        _ => (state, none),
    }
}

/// The delayed "exit reset" action: release the reset line, but only if the
/// system is still fully powered on.
pub fn exit_reset_step(state: DcPowerState) -> (release_reset: bool)
    ensures
        release_reset == (state == DcPowerState::On),
{
    match state {
        DcPowerState::On => true,
        _ => false,
    }
}

/// One tick of the idle LED blink: while the system is off the power LED
/// toggles and the tick re-arms itself; in any other state the LED is left
/// alone and the blinking stops.
pub fn led_blink_step(state: DcPowerState, led_on: bool) -> (r: (Option<bool>, bool))
    ensures
        state == DcPowerState::Off ==> r == (Some(!led_on), true),
        state != DcPowerState::Off ==> r == (None::<bool>, false),
{
    match state {
        DcPowerState::Off => (Some(!led_on), true),
        _ => (None, false),
    }
}

/// Law: a short press of the power button never changes the power state while
/// the system is Starting or On, and a long press never changes it while the
/// system is Off or Starting; only the transitions of `spec_power_next` exist.
pub proof fn lemma_power_short_press_masked(state: DcPowerState)
    ensures
        state != DcPowerState::Off ==> spec_power_next(state, ButtonEvent::PowerShortPress)
            == state,
        state != DcPowerState::On ==> spec_power_next(state, ButtonEvent::PowerLongPress) == state,
        spec_power_next(state, ButtonEvent::ResetShortPress) == state,
{
}

} // verus!
