use spectral_forge::dsp::engines::spectral_compressor::SpectralCompressorEngine;
use spectral_forge::dsp::engines::EngineSelection;
use spectral_forge::dsp::modules::dynamics::DynamicsModule;
use spectral_forge::dsp::modules::ts_split::TsSplitModule;
use spectral_forge::dsp::modules::{
    module_spec, GainMode, ModuleType, Rgb, VirtualRowKind, MAX_MATRIX_ROWS, MAX_SLOTS,
    MAX_SPLIT_VIRTUAL_ROWS,
};

const ALL_TYPES: [ModuleType; 10] = [
    ModuleType::Empty,
    ModuleType::Dynamics,
    ModuleType::Freeze,
    ModuleType::PhaseSmear,
    ModuleType::Contrast,
    ModuleType::Gain,
    ModuleType::MidSide,
    ModuleType::TransientSustainedSplit,
    ModuleType::Harmonic,
    ModuleType::Master,
];

#[test]
fn module_spec_dynamics() {
    let s = module_spec(ModuleType::Dynamics);
    assert_eq!(s.display_name, "Dynamics");
    assert_eq!(s.color_lit, Rgb { r: 0x50, g: 0xc0, b: 0xc4 });
    assert_eq!(s.color_dim, Rgb { r: 0x18, g: 0x40, b: 0x42 });
    assert_eq!(s.num_curves, 6);
    assert_eq!(s.curve_labels, &["THRESHOLD", "RATIO", "ATTACK", "RELEASE", "KNEE", "MIX"]);
}

#[test]
fn module_spec_freeze_and_split() {
    let f = module_spec(ModuleType::Freeze);
    assert_eq!(f.display_name, "Freeze");
    assert_eq!(f.curve_labels, &["LENGTH", "THRESHOLD", "PORTAMENTO", "RESISTANCE"]);
    let t = module_spec(ModuleType::TransientSustainedSplit);
    assert_eq!(t.display_name, "T/S Split");
    assert_eq!(t.num_curves, 1);
    assert_eq!(t.color_lit, Rgb { r: 0x80, g: 0xb0, b: 0x60 });
    let m = module_spec(ModuleType::MidSide);
    assert_eq!(m.display_name, "Mid/Side");
    assert_eq!(m.curve_labels, &["BALANCE", "EXPANSION", "DECORREL", "TRANSIENT", "PAN"]);
}

#[test]
fn module_spec_no_curve_types() {
    for ty in [ModuleType::Harmonic, ModuleType::Master, ModuleType::Empty] {
        let s = module_spec(ty);
        assert_eq!(s.num_curves, 0);
        assert!(s.curve_labels.is_empty());
    }
    assert_eq!(module_spec(ModuleType::Master).color_lit, Rgb { r: 0xcc, g: 0xcc, b: 0xcc });
    assert_eq!(module_spec(ModuleType::Empty).display_name, "Empty");
}

#[test]
fn module_spec_counts_match_labels() {
    for ty in ALL_TYPES {
        let s = module_spec(ty);
        assert_eq!(s.num_curves, s.curve_labels.len());
    }
}

#[test]
fn modules_agree_with_their_spec() {
    let d = DynamicsModule::new();
    assert_eq!(d.module_type(), ModuleType::Dynamics);
    assert_eq!(d.num_curves(), module_spec(d.module_type()).num_curves);
    assert_eq!(d.num_outputs(), None);
    assert_eq!(d.tail_length(), 0);
    let t = TsSplitModule::new();
    assert_eq!(t.module_type(), ModuleType::TransientSustainedSplit);
    assert_eq!(t.num_curves(), module_spec(t.module_type()).num_curves);
    assert_eq!(t.num_outputs(), Some(2));
    assert_eq!(t.tail_length(), 0);
}

#[test]
fn module_enum_defaults_and_constants() {
    assert_eq!(ModuleType::default(), ModuleType::Empty);
    assert_eq!(GainMode::default(), GainMode::Add);
    assert_ne!(VirtualRowKind::Transient, VirtualRowKind::Sustained);
    assert_eq!(MAX_MATRIX_ROWS, MAX_SLOTS + MAX_SPLIT_VIRTUAL_ROWS);
}

#[test]
fn compressor_engine_metadata() {
    let e = SpectralCompressorEngine::new();
    assert_eq!(e.name(), "Spectral Compressor");
    assert_eq!(e.tail_length(2048), 2048);
    assert_eq!(e.tail_length(4096), 4096);
    assert_eq!(e.tail_length((1usize << 32) + 5), 5);
    assert_eq!(EngineSelection::SpectralCompressor, EngineSelection::SpectralCompressor);
}
