use spectral_forge::editor_ui::EditorSelection;
use spectral_forge::params::{FxChannelTarget, FxModuleType, FxSlotConfig};

#[test]
fn fx_module_type_dynamics_is_slot_zero() {
    let p = FxSlotConfig::new();
    let types = p.module_types;
    assert_eq!(types[0], FxModuleType::Dynamics);
    for i in 1..8 {
        assert_eq!(types[i], FxModuleType::Empty, "slot {i} should be Empty by default");
    }
    let targets = p.module_targets;
    assert!(targets.iter().all(|&t| t == FxChannelTarget::All));
    let names = &p.module_names;
    assert_eq!(&names[0], "Dynamics");
    assert_eq!(EditorSelection::new().editing_slot, 0u8);
}

#[test]
fn default_slot_names_are_numbered() {
    let p = FxSlotConfig::new();
    for i in 1..8 {
        assert_eq!(p.module_names[i], format!("Slot {i}"));
    }
}

#[test]
fn channel_target_labels() {
    assert_eq!(FxChannelTarget::All.label(), "All");
    assert_eq!(FxChannelTarget::Mid.label(), "Mid");
    assert_eq!(FxChannelTarget::Side.label(), "Side");
}

#[test]
fn enum_defaults() {
    assert_eq!(FxChannelTarget::default(), FxChannelTarget::All);
    assert_eq!(FxModuleType::default(), FxModuleType::Empty);
}
