use pasto::control::{ControlPhase, ControlState, Drive, PhaseAction, PlantModel, PreheatController, TickInput};
use pasto::{HeaterState, TempBand};

fn tick(now_ms: u64, pump_on: bool, band: TempBand, lead: bool, margin: bool) -> TickInput {
    TickInput { now_ms, pump_on, band, heater_idle: true, reached_preheat_lead: lead, within_coast_margin: margin }
}

#[test]
fn boot_state_is_disabled_closed_loop() {
    let s = ControlState::new(5);
    assert!(!s.enabled);
    assert_eq!(s.last_activity_ms, 5);
    assert_eq!(s.controller.phase, ControlPhase::Closed);
}

#[test]
fn cold_enable_starts_preheat_with_transient_model() {
    let mut s = ControlState::new(0);
    let out = s.on_toggle(1_000, true, true, TempBand::BelowSetpoint, true);
    assert_eq!(out.reseed_with, Some(PlantModel::Transient));
    assert_eq!(out.led_state, HeaterState::Heating);
    assert!(s.enabled);
    assert_eq!(s.controller.phase, ControlPhase::Preheat);
    assert_eq!(s.controller.phase_start_ms, 1_000);
    assert_eq!(s.last_activity_ms, 1_000);
}

#[test]
fn warm_enable_goes_straight_to_closed_loop() {
    let mut s = ControlState::new(0);
    let out = s.on_toggle(1_000, true, false, TempBand::NearSetpoint, true);
    assert_eq!(out.reseed_with, Some(PlantModel::Setpoint));
    assert_eq!(out.led_state, HeaterState::AtSetpoint);
    assert_eq!(s.controller.phase, ControlPhase::Closed);
}

#[test]
fn preheat_coast_closed_sequence() {
    let mut s = ControlState::new(0);
    s.on_toggle(0, true, true, TempBand::BelowSetpoint, true);
    let out = s.on_tick(tick(500, false, TempBand::BelowSetpoint, false, false));
    assert_eq!(out.led_state, HeaterState::Preheating);
    assert_eq!(out.drive.unwrap().action, PhaseAction::Preheat { safety_cap: false });
    // Reaching the lead cuts to coast; the power on this tick is still preheat.
    let out = s.on_tick(tick(60_000, false, TempBand::BelowSetpoint, true, false));
    assert_eq!(out.drive.unwrap().action, PhaseAction::Preheat { safety_cap: false });
    assert_eq!(s.controller.phase, ControlPhase::Coast);
    assert_eq!(s.controller.phase_start_ms, 60_000);
    assert_eq!(out.led_state, HeaterState::Preheating);
    let out = s.on_tick(tick(60_500, false, TempBand::BelowSetpoint, true, false));
    assert_eq!(out.drive.unwrap().action, PhaseAction::Coast { handoff: false, safety_cap: false });
    let out = s.on_tick(tick(61_000, false, TempBand::BelowSetpoint, true, true));
    assert_eq!(out.drive.unwrap().action, PhaseAction::Coast { handoff: true, safety_cap: false });
    assert_eq!(s.controller.phase, ControlPhase::Closed);
    assert_eq!(out.led_state, HeaterState::Heating);
    let out = s.on_tick(tick(61_500, false, TempBand::NearSetpoint, true, true));
    assert_eq!(out.drive.unwrap().action, PhaseAction::Closed);
    assert_eq!(out.led_state, HeaterState::AtSetpoint);
}

#[test]
fn preheat_safety_cap_forces_coast() {
    let mut s = ControlState::new(0);
    s.on_toggle(0, true, true, TempBand::BelowSetpoint, true);
    let out = s.on_tick(tick(179_999, false, TempBand::BelowSetpoint, false, false));
    assert_eq!(out.drive.unwrap().action, PhaseAction::Preheat { safety_cap: false });
    assert_eq!(s.controller.phase, ControlPhase::Preheat);
    let out = s.on_tick(tick(180_000, false, TempBand::BelowSetpoint, false, false));
    assert_eq!(out.drive.unwrap().action, PhaseAction::Preheat { safety_cap: true });
    assert_eq!(s.controller.phase, ControlPhase::Coast);
}

#[test]
fn coast_safety_cap_forces_closed_loop() {
    let mut c = PreheatController { phase: ControlPhase::Coast, phase_start_ms: 1_000 };
    assert_eq!(c.tick(120_999, false, false), PhaseAction::Coast { handoff: false, safety_cap: false });
    assert_eq!(c.tick(121_000, false, false), PhaseAction::Coast { handoff: true, safety_cap: true });
    assert_eq!(c.phase, ControlPhase::Closed);
    assert!(!c.is_preheating());
}

#[test]
fn coast_exit_by_margin_at_cap_is_not_a_safety_cap() {
    let mut c = PreheatController { phase: ControlPhase::Coast, phase_start_ms: 0 };
    assert_eq!(c.tick(200_000, false, true), PhaseAction::Coast { handoff: true, safety_cap: false });
}

#[test]
fn idle_timeout_disables_after_twelve_minutes() {
    let mut s = ControlState::new(0);
    s.on_toggle(0, true, false, TempBand::NearSetpoint, true);
    let out = s.on_tick(tick(719_999, false, TempBand::NearSetpoint, true, true));
    assert!(!out.idle_timeout);
    assert!(s.enabled);
    let out = s.on_tick(tick(720_000, false, TempBand::NearSetpoint, true, true));
    assert!(out.idle_timeout);
    assert!(!out.fault_trip);
    assert_eq!(out.drive, None);
    assert_eq!(out.led_state, HeaterState::Disabled);
    assert!(!s.enabled);
    // A later tick does not re-enable.
    let out = s.on_tick(tick(800_000, true, TempBand::NearSetpoint, true, true));
    assert!(!s.enabled);
    assert_eq!(out.drive, None);
}

#[test]
fn pump_use_resets_idle_timer() {
    let mut s = ControlState::new(0);
    s.on_toggle(0, true, false, TempBand::NearSetpoint, true);
    let out = s.on_tick(tick(700_000, true, TempBand::NearSetpoint, true, true));
    assert!(!out.idle_timeout);
    assert_eq!(s.last_activity_ms, 700_000);
    let out = s.on_tick(tick(1_000_000, false, TempBand::NearSetpoint, true, true));
    assert!(!out.idle_timeout);
    assert!(s.enabled);
    let out = s.on_tick(tick(1_420_000, false, TempBand::NearSetpoint, true, true));
    assert!(out.idle_timeout);
}

#[test]
fn fault_trips_enabled_heater() {
    let mut s = ControlState::new(0);
    s.on_toggle(0, true, true, TempBand::BelowSetpoint, true);
    let out = s.on_tick(tick(500, false, TempBand::OutOfRange, false, false));
    assert!(out.fault_trip);
    assert!(!out.idle_timeout);
    assert_eq!(out.drive, None);
    assert_eq!(out.led_state, HeaterState::Fault);
    assert!(!s.enabled);
    assert_eq!(s.controller.phase, ControlPhase::Closed);
}

#[test]
fn out_of_range_while_disabled_is_no_fault() {
    let mut s = ControlState::new(0);
    let out = s.on_tick(tick(500, false, TempBand::OutOfRange, false, false));
    assert!(!out.fault_trip);
    assert_eq!(out.led_state, HeaterState::Disabled);
}

#[test]
fn brew_start_edge_detected_once() {
    let mut s = ControlState::new(0);
    s.on_toggle(0, true, false, TempBand::NearSetpoint, true);
    let out = s.on_tick(tick(500, true, TempBand::NearSetpoint, true, true));
    assert_eq!(out.drive, Some(Drive { brew_started: true, pump_on: true, action: PhaseAction::Closed }));
    let out = s.on_tick(tick(1_000, true, TempBand::NearSetpoint, true, true));
    assert_eq!(out.drive, Some(Drive { brew_started: false, pump_on: true, action: PhaseAction::Closed }));
    let out = s.on_tick(tick(1_500, false, TempBand::NearSetpoint, true, true));
    assert_eq!(out.drive, Some(Drive { brew_started: false, pump_on: false, action: PhaseAction::Closed }));
}

#[test]
fn disable_mid_preheat_does_not_resume() {
    let mut s = ControlState::new(0);
    s.on_toggle(0, true, true, TempBand::BelowSetpoint, true);
    s.on_tick(tick(500, false, TempBand::BelowSetpoint, false, false));
    let out = s.on_toggle(1_000, false, true, TempBand::BelowSetpoint, true);
    assert_eq!(out.reseed_with, None);
    assert_eq!(out.led_state, HeaterState::Disabled);
    assert_eq!(s.controller.phase, ControlPhase::Closed);
    for k in 1..10u64 {
        let out = s.on_tick(tick(1_000 + k * 500, false, TempBand::BelowSetpoint, false, false));
        assert_eq!(out.led_state, HeaterState::Disabled);
        assert!(!s.enabled);
        assert!(!s.controller.is_preheating());
    }
}

#[test]
fn start_and_stop_on_controller() {
    let mut c = PreheatController::new(10);
    assert_eq!(c.start_preheat(20, true), PlantModel::Transient);
    assert!(c.is_preheating());
    c.on_fault();
    assert!(!c.is_preheating());
    assert_eq!(c.start_preheat(30, false), PlantModel::Setpoint);
    assert_eq!(c.phase_start_ms, 20);
    c.on_disable();
    assert_eq!(c.phase, ControlPhase::Closed);
}

#[test]
fn coast_cap_hands_off_in_control_loop() {
    let mut s = ControlState::new(0);
    s.on_toggle(0, true, true, TempBand::BelowSetpoint, true);
    s.on_tick(tick(10_000, false, TempBand::BelowSetpoint, true, false));
    assert_eq!(s.controller.phase, ControlPhase::Coast);
    let out = s.on_tick(tick(129_999, false, TempBand::BelowSetpoint, true, false));
    assert_eq!(out.drive.unwrap().action, PhaseAction::Coast { handoff: false, safety_cap: false });
    let out = s.on_tick(tick(130_000, false, TempBand::BelowSetpoint, true, false));
    assert_eq!(out.drive.unwrap().action, PhaseAction::Coast { handoff: true, safety_cap: true });
    assert_eq!(s.controller.phase, ControlPhase::Closed);
    assert_eq!(out.led_state, HeaterState::Heating);
}

#[test]
fn drive_and_led_follow_enabled_state_over_a_run() {
    let mut s = ControlState::new(0);
    let bands = [TempBand::BelowSetpoint, TempBand::NearSetpoint, TempBand::AboveSetpoint, TempBand::OutOfRange];
    let mut now = 0u64;
    for round in 0..6u64 {
        let out = s.on_toggle(now, round % 3 != 2, round % 2 == 0, bands[(round % 4) as usize], true);
        assert_eq!(out.reseed_with.is_some(), s.enabled);
        for k in 0..40u64 {
            now += 20_000;
            let band = if k == 30 && round == 4 { TempBand::OutOfRange } else { bands[(k % 3) as usize] };
            let out = s.on_tick(tick(now, k % 7 == 0, band, k % 5 == 0, k % 11 == 0));
            assert_eq!(out.drive.is_some(), s.enabled);
            assert_eq!(
                out.led_state == HeaterState::Preheating,
                s.enabled && s.controller.is_preheating()
            );
            assert!(s.last_activity_ms <= now && s.controller.phase_start_ms <= now);
        }
    }
}

#[test]
fn near_setpoint_under_power_shows_heating() {
    let mut s = ControlState::new(0);
    let out = s.on_toggle(0, true, false, TempBand::NearSetpoint, false);
    assert_eq!(out.led_state, HeaterState::Heating);
    let mut inp = tick(500, false, TempBand::NearSetpoint, true, true);
    inp.heater_idle = false;
    assert_eq!(s.on_tick(inp).led_state, HeaterState::Heating);
    inp.now_ms = 1_000;
    inp.heater_idle = true;
    assert_eq!(s.on_tick(inp).led_state, HeaterState::AtSetpoint);
}
