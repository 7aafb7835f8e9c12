use vstd::prelude::*;
use crate::params::{EffectMode, FxChannelTarget, target_label, NUM_CURVE_SETS, NUM_FX_SLOTS};
use crate::bridge::NUM_FREEZE_CURVES;

verus! {

/// Tab showing the dynamics curves and controls.
pub const TAB_DYNAMICS: u8 = 0;
/// Tab showing the effect modes.
pub const TAB_EFFECTS: u8 = 1;
/// Tab of the harmonic section.
pub const TAB_HARMONIC: u8 = 2;
/// Curve index the grid uses for the phase-amount curve.
pub const PHASE_GRID_CURVE: usize = 7;
/// First curve index the grid uses for the freeze curves (one per freeze curve).
pub const FREEZE_GRID_CURVE_BASE: usize = 8;

/// Which controls the second row of the bottom strip shows.
#[derive(Debug, Clone, Copy, PartialEq, Eq, Structural)]
pub enum ControlRow {
    /// Attack, release, sensitivity, width, and the active curve's offset and tilt.
    Dynamics,
    /// The effect-mode buttons and the knob of the current mode.
    Effects,
    /// No controls (Harmonic tab).
    Empty,
}

/// The knob shown beside the effect-mode buttons.
#[derive(Debug, Clone, Copy, PartialEq, Eq, Structural)]
pub enum EffectKnob {
    NoKnob,
    /// Phase randomisation amount.
    Amount,
    /// Spectral contrast depth.
    Depth,
}

/// The editor's persisted selection state: the dynamics curve being edited,
/// the open tab, the freeze curve being edited, and the matrix slot being
/// edited.
#[derive(Debug, Clone, Copy, PartialEq, Eq, Structural)]
pub struct EditorSelection {
    pub active_curve: u8,
    pub active_tab: u8,
    pub freeze_active_curve: u8,
    pub editing_slot: u8,
}

impl EditorSelection {
    /// Every index points at an existing curve, freeze curve and slot.
    pub open spec fn wf(&self) -> bool {
        &&& self.active_curve < NUM_CURVE_SETS
        &&& self.freeze_active_curve < NUM_FREEZE_CURVES
        &&& self.editing_slot < NUM_FX_SLOTS
    }

    pub open spec fn spec_is_freeze_mode(&self, mode: EffectMode) -> bool {
        self.active_tab == TAB_EFFECTS && mode == EffectMode::Freeze
    }

    pub open spec fn spec_is_phase_mode(&self, mode: EffectMode) -> bool {
        self.active_tab == TAB_EFFECTS && mode == EffectMode::PhaseRand
    }

    pub open spec fn spec_grid_curve_idx(&self, mode: EffectMode) -> int {
        if self.spec_is_freeze_mode(mode) {
            FREEZE_GRID_CURVE_BASE + self.freeze_active_curve
        } else if self.spec_is_phase_mode(mode) {
            PHASE_GRID_CURVE as int
        } else {
            self.active_curve as int
        }
    }

    /// The state of a fresh plugin: threshold curve, Dynamics tab, first
    /// freeze curve, slot 0.
    pub fn new() -> (s: Self)
        ensures
            s.wf(),
            s.active_curve == 0,
            s.active_tab == TAB_DYNAMICS,
            s.freeze_active_curve == 0,
            s.editing_slot == 0,
    {
        EditorSelection { active_curve: 0, active_tab: 0, freeze_active_curve: 0, editing_slot: 0 }
    }

    /// Whether the Effects tab shows the freeze curves.
    pub fn is_freeze_mode(&self, mode: EffectMode) -> (b: bool)
        ensures
            b == self.spec_is_freeze_mode(mode),
    {
        self.active_tab == TAB_EFFECTS && mode == EffectMode::Freeze
    }

    /// Whether the Effects tab shows the phase-amount curve.
    pub fn is_phase_mode(&self, mode: EffectMode) -> (b: bool)
        ensures
            b == self.spec_is_phase_mode(mode),
    {
        self.active_tab == TAB_EFFECTS && mode == EffectMode::PhaseRand
    }

    /// The curve index whose reference lines the grid draws: the selected
    /// freeze curve in freeze mode, the phase curve in phase mode, the active
    /// dynamics curve otherwise.
    pub fn grid_curve_idx(&self, mode: EffectMode) -> (idx: usize)
        requires
            self.wf(),
        ensures
            idx == self.spec_grid_curve_idx(mode),
            idx < FREEZE_GRID_CURVE_BASE + NUM_FREEZE_CURVES,
    {
        if self.is_freeze_mode(mode) {
            FREEZE_GRID_CURVE_BASE + self.freeze_active_curve as usize
        } else if self.is_phase_mode(mode) {
            PHASE_GRID_CURVE
        } else {
            self.active_curve as usize
        }
    }

    /// Whether dynamics curve button `i` is highlighted.
    pub fn curve_button_active(&self, i: usize) -> (b: bool)
        ensures
            b == (self.active_curve == i && self.active_tab == TAB_DYNAMICS),
    {
        self.active_curve as usize == i && self.active_tab == TAB_DYNAMICS
    }

    /// Whether freeze curve button `i` is highlighted.
    pub fn freeze_button_active(&self, i: usize) -> (b: bool)
        ensures
            b == (self.freeze_active_curve == i),
    {
        self.freeze_active_curve as usize == i
    }

    /// Whether tab button `t` is highlighted.
    pub fn tab_button_active(&self, t: usize) -> (b: bool)
        ensures
            b == (self.active_tab == t),
    {
        self.active_tab as usize == t
    }

    /// Whether the nodes of the active dynamics curve can be dragged.
    pub fn dynamics_nodes_interactive(&self, mode: EffectMode) -> (b: bool)
        ensures
            b == (!self.spec_is_freeze_mode(mode) && !self.spec_is_phase_mode(mode)
                && self.active_tab == TAB_DYNAMICS),
    {
        !self.is_freeze_mode(mode) && !self.is_phase_mode(mode) && self.active_tab == TAB_DYNAMICS
    }

    /// Whether the notice of the Harmonic tab is shown.
    pub fn shows_harmonic_notice(&self) -> (b: bool)
        ensures
            b == (self.active_tab == TAB_HARMONIC),
    {
        self.active_tab == TAB_HARMONIC
    }

    /// Which controls the second row of the bottom strip shows.
    pub fn control_row(&self) -> (r: ControlRow)
        ensures
            r == (if self.active_tab == TAB_DYNAMICS {
                ControlRow::Dynamics
            } else if self.active_tab == TAB_EFFECTS {
                ControlRow::Effects
            } else {
                ControlRow::Empty
            }),
    {
        if self.active_tab == TAB_DYNAMICS {
            ControlRow::Dynamics
        } else if self.active_tab == TAB_EFFECTS {
            ControlRow::Effects
        } else {
            ControlRow::Empty
        }
    }

    /// Clicking dynamics curve button `i` selects that curve and switches to
    /// the Dynamics tab; then it is the only highlighted curve button.
    pub fn click_curve_button(&mut self, i: usize)
        requires
            old(self).wf(),
            i < NUM_CURVE_SETS,
        ensures
            final(self).wf(),
            final(self).active_curve == i,
            final(self).active_tab == TAB_DYNAMICS,
            final(self).freeze_active_curve == old(self).freeze_active_curve,
            final(self).editing_slot == old(self).editing_slot,
    {
        self.active_curve = i as u8;
        self.active_tab = TAB_DYNAMICS;
    }

    /// Clicking freeze curve button `i` selects that freeze curve.
    pub fn click_freeze_button(&mut self, i: usize)
        requires
            old(self).wf(),
            i < NUM_FREEZE_CURVES,
        ensures
            final(self).wf(),
            final(self).freeze_active_curve == i,
            final(self).active_curve == old(self).active_curve,
            final(self).active_tab == old(self).active_tab,
            final(self).editing_slot == old(self).editing_slot,
    {
        self.freeze_active_curve = i as u8;
    }

    /// Clicking tab button `t` opens that tab.
    pub fn click_tab(&mut self, t: usize)
        requires
            old(self).wf(),
            t < 3,
        ensures
            final(self).wf(),
            final(self).active_tab == t,
            final(self).active_curve == old(self).active_curve,
            final(self).freeze_active_curve == old(self).freeze_active_curve,
            final(self).editing_slot == old(self).editing_slot,
    {
        self.active_tab = t as u8;
    }

    /// Clicking the module cell of slot `slot` selects it for editing.
    pub fn click_module_cell(&mut self, slot: usize)
        requires
            old(self).wf(),
            slot < NUM_FX_SLOTS,
        ensures
            final(self).wf(),
            final(self).editing_slot == slot,
            final(self).active_curve == old(self).active_curve,
            final(self).active_tab == old(self).active_tab,
            final(self).freeze_active_curve == old(self).freeze_active_curve,
    {
        self.editing_slot = slot as u8;
    }
}

/// Which curves the editor shows, in terms of the selection and the effect
/// mode: freeze mode and phase mode both need the Effects tab, freeze mode
/// exactly the Freeze effect and phase mode exactly the PhaseRand effect, so
/// the two never hold together; the grid uses the selected freeze curve
/// (indices 8 to 11) in freeze mode, the phase curve (index 7) in phase mode,
/// and the active dynamics curve otherwise (on every other tab, and in Bypass
/// and SpectralContrast); the dynamics nodes can be dragged exactly on the
/// Dynamics tab.
pub proof fn lemma_editor_modes(s: EditorSelection, mode: EffectMode)
    requires
        s.wf(),
    ensures
        s.spec_is_freeze_mode(mode) <==> (s.active_tab == 1 && mode == EffectMode::Freeze),
        s.spec_is_phase_mode(mode) <==> (s.active_tab == 1 && mode == EffectMode::PhaseRand),
        !(s.spec_is_freeze_mode(mode) && s.spec_is_phase_mode(mode)),
        (mode == EffectMode::Bypass || mode == EffectMode::SpectralContrast || s.active_tab != 1)
            ==> s.spec_grid_curve_idx(mode) == s.active_curve,
        (s.active_tab == 1 && mode == EffectMode::Freeze) ==> s.spec_grid_curve_idx(mode) == 8
            + s.freeze_active_curve,
        (s.active_tab == 1 && mode == EffectMode::PhaseRand) ==> s.spec_grid_curve_idx(mode) == 7,
        s.spec_grid_curve_idx(mode) < 7 <==> !(s.active_tab == 1 && (mode == EffectMode::Freeze
            || mode == EffectMode::PhaseRand)),
        (!s.spec_is_freeze_mode(mode) && !s.spec_is_phase_mode(mode) && s.active_tab == 0)
            <==> s.active_tab == 0,
{
}

/// After a click on dynamics curve button `i`, button `j` is highlighted
/// exactly when `j == i`.
pub proof fn lemma_one_curve_button_lit(s: EditorSelection, i: int, j: int)
    requires
        s.active_curve == i,
        s.active_tab == TAB_DYNAMICS,
    ensures
        (s.active_curve == j && s.active_tab == TAB_DYNAMICS) <==> j == i,
{
}

/// The knob shown beside the effect-mode buttons in `mode`.
pub fn effect_knob(mode: EffectMode) -> (k: EffectKnob)
    ensures
        k == (match mode {
            EffectMode::PhaseRand => EffectKnob::Amount,
            EffectMode::SpectralContrast => EffectKnob::Depth,
            _ => EffectKnob::NoKnob,
        }),
{
    match mode {
        EffectMode::PhaseRand => EffectKnob::Amount,
        EffectMode::SpectralContrast => EffectKnob::Depth,
        _ => EffectKnob::NoKnob,
    }
}

/// The graph header naming the slot being edited and its channel target:
/// "Editing: {name} — {target}".
pub fn graph_header(name: &str, target: FxChannelTarget) -> (h: String)
    ensures
        h@ == "Editing: "@ + name@ + " \u{2014} "@ + target_label(target),
{
    let mut h = String::from_str("Editing: ");
    h.append(name);
    h.append(" \u{2014} ");
    h.append(target.label());
    h
}

} // verus!
