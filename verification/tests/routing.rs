use spectral_forge::dsp::fx_matrix::{
    dynamics_action, plan_hop, slot_gated_off, EngineSide, SlotAction, MAX_SLOTS,
};
use spectral_forge::params::{EffectMode, FxChannelTarget, StereoLink};

#[test]
fn gating_matches_channel_targets() {
    assert!(slot_gated_off(FxChannelTarget::Mid, StereoLink::MidSide, 1));
    assert!(!slot_gated_off(FxChannelTarget::Mid, StereoLink::MidSide, 0));
    assert!(slot_gated_off(FxChannelTarget::Side, StereoLink::MidSide, 0));
    assert!(!slot_gated_off(FxChannelTarget::Side, StereoLink::MidSide, 1));
    for link in [StereoLink::Linked, StereoLink::Independent] {
        for ch in 0..2 {
            assert!(slot_gated_off(FxChannelTarget::Mid, link, ch));
            assert!(slot_gated_off(FxChannelTarget::Side, link, ch));
        }
    }
    for link in [StereoLink::Linked, StereoLink::Independent, StereoLink::MidSide] {
        for ch in 0..3 {
            assert!(!slot_gated_off(FxChannelTarget::All, link, ch));
        }
    }
}

#[test]
fn dynamics_action_by_mode() {
    assert_eq!(dynamics_action(FxChannelTarget::All, StereoLink::Linked, 0, EffectMode::Bypass), SlotAction::PassThrough);
    assert_eq!(dynamics_action(FxChannelTarget::All, StereoLink::Linked, 1, EffectMode::SpectralContrast), SlotAction::Contrast);
    assert_eq!(
        dynamics_action(FxChannelTarget::All, StereoLink::Linked, 1, EffectMode::Freeze),
        SlotAction::Compress(EngineSide::Main)
    );
    assert_eq!(
        dynamics_action(FxChannelTarget::All, StereoLink::Independent, 1, EffectMode::PhaseRand),
        SlotAction::Compress(EngineSide::Right)
    );
    assert_eq!(
        dynamics_action(FxChannelTarget::All, StereoLink::Independent, 0, EffectMode::Freeze),
        SlotAction::Compress(EngineSide::Main)
    );
    assert_eq!(
        dynamics_action(FxChannelTarget::Side, StereoLink::MidSide, 0, EffectMode::SpectralContrast),
        SlotAction::PassThrough
    );
    assert_eq!(
        dynamics_action(FxChannelTarget::Side, StereoLink::MidSide, 1, EffectMode::Freeze),
        SlotAction::Compress(EngineSide::Main)
    );
}

#[test]
fn hop_plan_single_slot() {
    let mut active = [false; 8];
    active[0] = true;
    let send_on = [[false; 8]; 8];
    let plan = plan_hop(&active, &send_on, FxChannelTarget::Mid);
    assert_eq!(plan.steps.len(), MAX_SLOTS);
    assert_eq!(plan.output, Some(0));
    let s0 = plan.steps[0].as_ref().unwrap();
    assert!(s0.main_input);
    assert_eq!(s0.target, FxChannelTarget::Mid);
    assert!(s0.forward.iter().all(|&b| !b));
    assert!(s0.feedback.iter().all(|&b| !b));
    for i in 1..8 {
        assert!(plan.steps[i].is_none());
    }
}

#[test]
fn hop_plan_no_active_slot_passes_through() {
    let active = [false; 8];
    let send_on = [[true; 8]; 8];
    let plan = plan_hop(&active, &send_on, FxChannelTarget::All);
    assert_eq!(plan.output, None);
    assert!(plan.steps.iter().all(|s| s.is_none()));
}

#[test]
fn hop_plan_forward_and_feedback_sends() {
    let mut active = [false; 8];
    active[0] = true;
    active[2] = true;
    active[5] = true;
    let mut send_on = [[false; 8]; 8];
    send_on[0][2] = true; // forward 0 -> 2
    send_on[5][2] = true; // feedback 5 -> 2
    send_on[5][0] = true; // feedback 5 -> 0
    send_on[2][2] = true; // self send, ignored
    send_on[2][5] = true; // forward 2 -> 5
    let plan = plan_hop(&active, &send_on, FxChannelTarget::Side);
    assert_eq!(plan.output, Some(5));
    let s0 = plan.steps[0].as_ref().unwrap();
    assert!(s0.main_input);
    assert_eq!(s0.feedback, vec![false, false, false, false, false, true, false, false]);
    assert_eq!(s0.forward, vec![false; 8]);
    let s2 = plan.steps[2].as_ref().unwrap();
    assert!(!s2.main_input);
    assert_eq!(s2.target, FxChannelTarget::All);
    assert_eq!(s2.forward, vec![true, false, false, false, false, false, false, false]);
    assert_eq!(s2.feedback, vec![false, false, false, false, false, true, false, false]);
    let s5 = plan.steps[5].as_ref().unwrap();
    assert_eq!(s5.forward, vec![false, false, true, false, false, false, false, false]);
    assert_eq!(s5.feedback, vec![false; 8]);
    assert!(plan.steps[1].is_none());
}

#[test]
fn hop_plan_output_is_last_active_slot() {
    let mut active = [false; 8];
    active[3] = true;
    active[7] = true;
    let plan = plan_hop(&active, &[[false; 8]; 8], FxChannelTarget::All);
    assert_eq!(plan.output, Some(7));
    assert!(plan.steps[0].is_none());
    assert!(!plan.steps[3].as_ref().unwrap().main_input);
}
