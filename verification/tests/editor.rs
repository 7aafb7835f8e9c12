use spectral_forge::dsp::modules::Rgb;
use spectral_forge::editor::curve::{band_type_for, curve_y_unit, hover_color, BandType};
use spectral_forge::editor::fx_matrix_grid::{
    grid_cell, module_cell_style, CellFill, CellLabel, GridCell, TextTone,
};
use spectral_forge::editor_ui::{
    effect_knob, graph_header, ControlRow, EditorSelection, EffectKnob, TAB_DYNAMICS, TAB_EFFECTS,
};
use spectral_forge::params::{EffectMode, FxChannelTarget, FxModuleType};

#[test]
fn band_types_of_nodes() {
    assert!(matches!(band_type_for(0), BandType::LowShelf));
    for i in 1..5 {
        assert!(matches!(band_type_for(i), BandType::Bell));
    }
    assert!(matches!(band_type_for(5), BandType::HighShelf));
    assert!(matches!(band_type_for(17), BandType::Bell));
}

#[test]
fn curve_units() {
    let units: Vec<&str> = (0..7).map(curve_y_unit).collect();
    assert_eq!(units, vec!["dBFS", "x", "ms", "ms", "dB", "dB", "%"]);
}

#[test]
fn hover_color_saturates() {
    let h = hover_color(Rgb { r: 10, g: 215, b: 250 });
    assert_eq!(h, Rgb { r: 50, g: 255, b: 255 });
}

#[test]
fn grid_cells_transpose_sends() {
    assert_eq!(grid_cell(3, 3), GridCell::Module(3));
    assert_eq!(grid_cell(2, 5), GridCell::Send { src: 5, dst: 2, feedback: true });
    assert_eq!(grid_cell(5, 2), GridCell::Send { src: 2, dst: 5, feedback: false });
}

#[test]
fn module_cell_styles() {
    let e = module_cell_style(FxModuleType::Empty, true);
    assert_eq!((e.fill, e.label, e.text, e.strong_border), (CellFill::Raised, CellLabel::Plus, TextTone::Dim, true));
    let d = module_cell_style(FxModuleType::Dynamics, true);
    assert_eq!((d.fill, d.label, d.text), (CellFill::ModuleLit, CellLabel::SlotName, TextTone::Background));
    let d = module_cell_style(FxModuleType::Dynamics, false);
    assert_eq!((d.fill, d.text, d.strong_border), (CellFill::ModuleDim, TextTone::Dim, false));
}

#[test]
fn selection_clicks() {
    let mut s = EditorSelection::new();
    assert_eq!(s.grid_curve_idx(EffectMode::Freeze), 0);
    s.click_tab(1);
    assert_eq!(s.active_tab, TAB_EFFECTS);
    assert!(s.is_freeze_mode(EffectMode::Freeze));
    assert!(!s.is_freeze_mode(EffectMode::PhaseRand));
    s.click_freeze_button(2);
    assert_eq!(s.grid_curve_idx(EffectMode::Freeze), 10);
    assert_eq!(s.grid_curve_idx(EffectMode::PhaseRand), 7);
    assert_eq!(s.grid_curve_idx(EffectMode::Bypass), 0);
    assert!(!s.dynamics_nodes_interactive(EffectMode::Bypass));
    assert_eq!(s.control_row(), ControlRow::Effects);
    s.click_curve_button(4);
    assert_eq!(s.active_tab, TAB_DYNAMICS);
    assert_eq!(s.grid_curve_idx(EffectMode::Freeze), 4);
    assert!(s.dynamics_nodes_interactive(EffectMode::Freeze));
    for i in 0..7 {
        assert_eq!(s.curve_button_active(i), i == 4);
    }
    assert!(s.freeze_button_active(2));
    assert!(s.tab_button_active(0));
    s.click_module_cell(6);
    assert_eq!(s.editing_slot, 6);
    s.click_tab(2);
    assert!(s.shows_harmonic_notice());
    assert_eq!(s.control_row(), ControlRow::Empty);
    assert!(!s.curve_button_active(4));
}

#[test]
fn effect_knobs() {
    assert_eq!(effect_knob(EffectMode::PhaseRand), EffectKnob::Amount);
    assert_eq!(effect_knob(EffectMode::SpectralContrast), EffectKnob::Depth);
    assert_eq!(effect_knob(EffectMode::Freeze), EffectKnob::NoKnob);
    assert_eq!(effect_knob(EffectMode::Bypass), EffectKnob::NoKnob);
}

#[test]
fn header_text() {
    assert_eq!(graph_header("Dynamics", FxChannelTarget::All), "Editing: Dynamics \u{2014} All");
    assert_eq!(graph_header("Slot 3", FxChannelTarget::Side), "Editing: Slot 3 \u{2014} Side");
}
