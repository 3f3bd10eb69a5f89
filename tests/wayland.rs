use automatic_redshift::color::ColorProfile;
use automatic_redshift::wayland::{OutputPhase, RampPush, RegistryError, WaylandState};

#[test]
fn ramp_size_zero_then_256() {
    let mut state = WaylandState::new();
    assert_eq!(state.add_output(7), Ok(()));
    assert_eq!(state.gamma_size(7, 0), Ok(None));
    assert_eq!(state.outputs[0].phase(), OutputPhase::AwaitingRampSize);
    assert!(state.apply_profile_to_all().is_empty());
    let push = state.gamma_size(7, 256).unwrap().unwrap();
    assert_eq!(
        push,
        RampPush { reg_name: 7, ramp_size: 256, profile: ColorProfile::from_temperature(6500) }
    );
    assert_eq!(push.byte_len(), 1536);
    assert_eq!(state.outputs[0].phase(), OutputPhase::Active);
    assert!(state.apply_profile_to_all().is_empty());
}

#[test]
fn same_profile_pushed_once() {
    let mut state = WaylandState::new();
    state.add_output(1).unwrap();
    state.add_output(2).unwrap();
    state.gamma_size(1, 256).unwrap();
    assert!(state.set_temperature(5000));
    let pushes = state.apply_profile_to_all();
    assert_eq!(pushes.len(), 1);
    assert_eq!(pushes[0].reg_name, 1);
    assert_eq!(pushes[0].profile.temperature, 5000);
    assert!(state.apply_profile_to_all().is_empty());
    assert!(!state.set_temperature(5000));
    assert!(state.apply_profile_to_all().is_empty());
}

#[test]
fn remove_while_awaiting_ramp_size() {
    let mut state = WaylandState::new();
    state.add_output(3).unwrap();
    state.add_output(4).unwrap();
    assert!(state.remove_output(3));
    assert_eq!(state.position(3), None);
    assert_eq!(state.position(4), Some(0));
    assert!(!state.remove_output(3));
    assert_eq!(state.outputs.len(), 1);
}

#[test]
fn gamma_failure_removes_output() {
    let mut state = WaylandState::new();
    state.add_output(5).unwrap();
    state.gamma_size(5, 1024).unwrap();
    assert_eq!(state.gamma_failed(5), Ok(()));
    assert!(state.outputs.is_empty());
    assert_eq!(state.gamma_failed(5), Err(RegistryError::UnknownOutput));
}

#[test]
fn events_for_unknown_outputs_are_errors() {
    let mut state = WaylandState::new();
    assert_eq!(state.gamma_size(9, 256), Err(RegistryError::UnknownOutput));
    assert_eq!(
        state.set_output_name(9, String::from("DP-1")),
        Err(RegistryError::UnknownOutput)
    );
    state.add_output(9).unwrap();
    assert_eq!(state.add_output(9), Err(RegistryError::DuplicateOutput));
    assert_eq!(state.outputs.len(), 1);
}

#[test]
fn output_name_is_recorded() {
    let mut state = WaylandState::new();
    state.add_output(11).unwrap();
    assert_eq!(state.set_output_name(11, String::from("eDP-1")), Ok(()));
    assert_eq!(state.outputs[0].name.as_deref(), Some("eDP-1"));
}

#[test]
fn ramp_size_zero_returns_to_awaiting() {
    let mut state = WaylandState::new();
    state.add_output(2).unwrap();
    state.gamma_size(2, 256).unwrap();
    assert_eq!(state.gamma_size(2, 0), Ok(None));
    assert_eq!(state.outputs[0].phase(), OutputPhase::AwaitingRampSize);
    assert_eq!(state.outputs[0].applied, None);
    let profile = ColorProfile { temperature: 4500, brightness: 700, inverted: true };
    assert!(state.set_profile(profile));
    assert!(state.apply_profile_to_all().is_empty());
    assert_eq!(
        state.gamma_size(2, 512),
        Ok(Some(RampPush { reg_name: 2, ramp_size: 512, profile }))
    );
}

#[test]
fn failed_push_is_sent_again() {
    let mut state = WaylandState::new();
    state.add_output(6).unwrap();
    state.gamma_size(6, 256).unwrap();
    assert!(state.set_temperature(4200));
    assert_eq!(state.apply_profile_to_all().len(), 1);
    assert_eq!(state.push_failed(6), Ok(()));
    assert_eq!(state.outputs[0].applied, None);
    let again = state.apply_profile_to_all();
    assert_eq!(again.len(), 1);
    assert_eq!(again[0].profile.temperature, 4200);
    assert_eq!(state.push_failed(8), Err(RegistryError::UnknownOutput));
}

#[test]
fn current_profile_averages_outputs() {
    let mut state = WaylandState::new();
    assert_eq!(state.current_profile(), None);
    for n in 1..=4 {
        state.add_output(n).unwrap();
    }
    state.gamma_size(1, 256).unwrap();
    state.gamma_size(2, 256).unwrap();
    let warm = ColorProfile { temperature: 4000, brightness: 500, inverted: true };
    assert!(state.set_profile(warm));
    state.gamma_size(3, 256).unwrap();
    assert_eq!(
        state.current_profile(),
        Some(ColorProfile { temperature: 5666, brightness: 833, inverted: false })
    );
    assert!(state.remove_output(1));
    assert!(state.remove_output(2));
    assert_eq!(state.current_profile(), Some(warm));
}
