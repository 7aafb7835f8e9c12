use vstd::prelude::*;
use crate::dsp::modules::dynamics::DynamicsModule;
use crate::dsp::modules::ts_split::TsSplitModule;

pub mod dynamics;
pub mod ts_split;

verus! {

/// Number of slots in the modular routing matrix (8 user slots and the Master).
pub const MAX_SLOTS: usize = 9;
/// Number of virtual rows that a transient/sustained split may add to the matrix.
pub const MAX_SPLIT_VIRTUAL_ROWS: usize = 4;
/// Rows of the modular routing matrix: one per slot and one per virtual row.
pub const MAX_MATRIX_ROWS: usize = MAX_SLOTS + MAX_SPLIT_VIRTUAL_ROWS;

#[derive(Debug, Clone, Copy, PartialEq, Eq, Structural)]
pub enum ModuleType {
    Empty,
    Dynamics,
    Freeze,
    PhaseSmear,
    Contrast,
    Gain,
    MidSide,
    TransientSustainedSplit,
    Harmonic,
    Master,
}

impl Default for ModuleType {
    fn default() -> (r: Self)
        ensures
            r == ModuleType::Empty,
    {
        ModuleType::Empty
    }
}

#[derive(Debug, Clone, Copy, PartialEq, Eq, Structural)]
pub enum GainMode {
    Add,
    Subtract,
    Pull,
}

impl Default for GainMode {
    fn default() -> (r: Self)
        ensures
            r == GainMode::Add,
    {
        GainMode::Add
    }
}

#[derive(Debug, Clone, Copy, PartialEq, Eq, Structural)]
pub enum VirtualRowKind {
    Transient,
    Sustained,
}

/// An sRGB colour, 8 bits per channel.
#[derive(Debug, Clone, Copy, PartialEq, Eq, Structural)]
pub struct Rgb {
    pub r: u8,
    pub g: u8,
    pub b: u8,
}

/// Statically known metadata of a module type, used by the editor.
pub struct ModuleSpec {
    pub display_name: &'static str,
    pub color_lit: Rgb,
    pub color_dim: Rgb,
    pub num_curves: usize,
    pub curve_labels: &'static [&'static str],
}

/// Name shown for a module type.
pub open spec fn spec_display_name(ty: ModuleType) -> Seq<char> {
    match ty {
        ModuleType::Dynamics => "Dynamics"@,
        ModuleType::Freeze => "Freeze"@,
        ModuleType::PhaseSmear => "Phase Smear"@,
        ModuleType::Contrast => "Contrast"@,
        ModuleType::Gain => "Gain"@,
        ModuleType::MidSide => "Mid/Side"@,
        ModuleType::TransientSustainedSplit => "T/S Split"@,
        ModuleType::Harmonic => "Harmonic"@,
        ModuleType::Master => "Master"@,
        ModuleType::Empty => "Empty"@,
    }
}

/// Colour of a module type when it is selected.
pub open spec fn spec_color_lit(ty: ModuleType) -> Rgb {
    match ty {
        ModuleType::Dynamics => Rgb { r: 0x50, g: 0xc0, b: 0xc4 },
        ModuleType::Freeze => Rgb { r: 0x50, g: 0x80, b: 0xc8 },
        ModuleType::PhaseSmear => Rgb { r: 0x90, g: 0x60, b: 0xc8 },
        ModuleType::Contrast => Rgb { r: 0xb0, g: 0x60, b: 0xe0 },
        ModuleType::Gain => Rgb { r: 0xc8, g: 0xa0, b: 0x50 },
        ModuleType::MidSide => Rgb { r: 0xc0, g: 0x50, b: 0xa0 },
        ModuleType::TransientSustainedSplit => Rgb { r: 0x80, g: 0xb0, b: 0x60 },
        ModuleType::Harmonic => Rgb { r: 0x50, g: 0xc8, b: 0x80 },
        ModuleType::Master => Rgb { r: 0xcc, g: 0xcc, b: 0xcc },
        ModuleType::Empty => Rgb { r: 0x33, g: 0x33, b: 0x33 },
    }
}

/// Colour of a module type when it is present but not selected.
pub open spec fn spec_color_dim(ty: ModuleType) -> Rgb {
    match ty {
        ModuleType::Dynamics => Rgb { r: 0x18, g: 0x40, b: 0x42 },
        ModuleType::Freeze => Rgb { r: 0x18, g: 0x28, b: 0x42 },
        ModuleType::PhaseSmear => Rgb { r: 0x30, g: 0x20, b: 0x42 },
        ModuleType::Contrast => Rgb { r: 0x38, g: 0x20, b: 0x48 },
        ModuleType::Gain => Rgb { r: 0x42, g: 0x34, b: 0x18 },
        ModuleType::MidSide => Rgb { r: 0x40, g: 0x18, b: 0x34 },
        ModuleType::TransientSustainedSplit => Rgb { r: 0x28, g: 0x38, b: 0x20 },
        ModuleType::Harmonic => Rgb { r: 0x18, g: 0x42, b: 0x28 },
        ModuleType::Master => Rgb { r: 0x44, g: 0x44, b: 0x44 },
        ModuleType::Empty => Rgb { r: 0x22, g: 0x22, b: 0x22 },
    }
}

/// Labels of the per-bin curves that a module type uses, in curve order.
pub open spec fn spec_curve_labels(ty: ModuleType) -> Seq<Seq<char>> {
    match ty {
        ModuleType::Dynamics => seq!["THRESHOLD"@, "RATIO"@, "ATTACK"@, "RELEASE"@, "KNEE"@, "MIX"@],
        ModuleType::Freeze => seq!["LENGTH"@, "THRESHOLD"@, "PORTAMENTO"@, "RESISTANCE"@],
        ModuleType::PhaseSmear => seq!["AMOUNT"@, "SC SMOOTH"@],
        ModuleType::Contrast => seq!["AMOUNT"@, "SC SMOOTH"@],
        ModuleType::Gain => seq!["GAIN"@, "SC SMOOTH"@],
        ModuleType::MidSide => seq!["BALANCE"@, "EXPANSION"@, "DECORREL"@, "TRANSIENT"@, "PAN"@],
        ModuleType::TransientSustainedSplit => seq!["SENSITIVITY"@],
        ModuleType::Harmonic => seq![],
        ModuleType::Master => seq![],
        ModuleType::Empty => seq![],
    }
}

/// Number of per-bin curves a module type uses.
pub open spec fn spec_num_curves(ty: ModuleType) -> nat {
    spec_curve_labels(ty).len()
}

/// The metadata of a module type: its name, its two colours, and the number
/// and labels of the per-bin curves it uses.
pub fn module_spec(ty: ModuleType) -> (spec: ModuleSpec)
    ensures
        spec.display_name@ == spec_display_name(ty),
        spec.color_lit == spec_color_lit(ty),
        spec.color_dim == spec_color_dim(ty),
        spec.curve_labels@.map_values(|l: &str| l@) == spec_curve_labels(ty),
        spec.num_curves == spec_num_curves(ty),
        spec.num_curves == spec.curve_labels@.len(),
{
    let spec = match ty {
        ModuleType::Dynamics => ModuleSpec {
            display_name: "Dynamics",
            color_lit: Rgb { r: 0x50, g: 0xc0, b: 0xc4 },
            color_dim: Rgb { r: 0x18, g: 0x40, b: 0x42 },
            num_curves: 6,
            curve_labels: &["THRESHOLD", "RATIO", "ATTACK", "RELEASE", "KNEE", "MIX"],
        },
        ModuleType::Freeze => ModuleSpec {
            display_name: "Freeze",
            color_lit: Rgb { r: 0x50, g: 0x80, b: 0xc8 },
            color_dim: Rgb { r: 0x18, g: 0x28, b: 0x42 },
            num_curves: 4,
            curve_labels: &["LENGTH", "THRESHOLD", "PORTAMENTO", "RESISTANCE"],
        },
        ModuleType::PhaseSmear => ModuleSpec {
            display_name: "Phase Smear",
            color_lit: Rgb { r: 0x90, g: 0x60, b: 0xc8 },
            color_dim: Rgb { r: 0x30, g: 0x20, b: 0x42 },
            num_curves: 2,
            curve_labels: &["AMOUNT", "SC SMOOTH"],
        },
        ModuleType::Contrast => ModuleSpec {
            display_name: "Contrast",
            color_lit: Rgb { r: 0xb0, g: 0x60, b: 0xe0 },
            color_dim: Rgb { r: 0x38, g: 0x20, b: 0x48 },
            num_curves: 2,
            curve_labels: &["AMOUNT", "SC SMOOTH"],
        },
        ModuleType::Gain => ModuleSpec {
            display_name: "Gain",
            color_lit: Rgb { r: 0xc8, g: 0xa0, b: 0x50 },
            color_dim: Rgb { r: 0x42, g: 0x34, b: 0x18 },
            num_curves: 2,
            curve_labels: &["GAIN", "SC SMOOTH"],
        },
        ModuleType::MidSide => ModuleSpec {
            display_name: "Mid/Side",
            color_lit: Rgb { r: 0xc0, g: 0x50, b: 0xa0 },
            color_dim: Rgb { r: 0x40, g: 0x18, b: 0x34 },
            num_curves: 5,
            curve_labels: &["BALANCE", "EXPANSION", "DECORREL", "TRANSIENT", "PAN"],
        },
        ModuleType::TransientSustainedSplit => ModuleSpec {
            display_name: "T/S Split",
            color_lit: Rgb { r: 0x80, g: 0xb0, b: 0x60 },
            color_dim: Rgb { r: 0x28, g: 0x38, b: 0x20 },
            num_curves: 1,
            curve_labels: &["SENSITIVITY"],
        },
        ModuleType::Harmonic => ModuleSpec {
            display_name: "Harmonic",
            color_lit: Rgb { r: 0x50, g: 0xc8, b: 0x80 },
            color_dim: Rgb { r: 0x18, g: 0x42, b: 0x28 },
            num_curves: 0,
            curve_labels: &[],
        },
        ModuleType::Master => ModuleSpec {
            display_name: "Master",
            color_lit: Rgb { r: 0xcc, g: 0xcc, b: 0xcc },
            color_dim: Rgb { r: 0x44, g: 0x44, b: 0x44 },
            num_curves: 0,
            curve_labels: &[],
        },
        ModuleType::Empty => ModuleSpec {
            display_name: "Empty",
            color_lit: Rgb { r: 0x33, g: 0x33, b: 0x33 },
            color_dim: Rgb { r: 0x22, g: 0x22, b: 0x22 },
            num_curves: 0,
            curve_labels: &[],
        },
    };
    proof {
        assert(spec.curve_labels@.map_values(|l: &str| l@) =~= spec_curve_labels(ty));
    }
    spec
}

/// The module metadata table: for each module type its name, how many
/// per-bin curves it uses and their labels in order, and its two colours.
/// A module type uses between none and six curves, and only the Dynamics
/// module uses six.
pub proof fn lemma_module_table()
    ensures
        spec_display_name(ModuleType::Dynamics) == "Dynamics"@,
        spec_num_curves(ModuleType::Dynamics) == 6,
        spec_curve_labels(ModuleType::Dynamics)[0] == "THRESHOLD"@,
        spec_curve_labels(ModuleType::Dynamics)[1] == "RATIO"@,
        spec_curve_labels(ModuleType::Dynamics)[2] == "ATTACK"@,
        spec_curve_labels(ModuleType::Dynamics)[3] == "RELEASE"@,
        spec_curve_labels(ModuleType::Dynamics)[4] == "KNEE"@,
        spec_curve_labels(ModuleType::Dynamics)[5] == "MIX"@,
        spec_color_lit(ModuleType::Dynamics).r == 0x50 && spec_color_lit(ModuleType::Dynamics).g == 0xc0 && spec_color_lit(ModuleType::Dynamics).b == 0xc4,
        spec_color_dim(ModuleType::Dynamics).r == 0x18 && spec_color_dim(ModuleType::Dynamics).g == 0x40 && spec_color_dim(ModuleType::Dynamics).b == 0x42,
        spec_display_name(ModuleType::Freeze) == "Freeze"@,
        spec_num_curves(ModuleType::Freeze) == 4,
        spec_curve_labels(ModuleType::Freeze)[0] == "LENGTH"@,
        spec_curve_labels(ModuleType::Freeze)[1] == "THRESHOLD"@,
        spec_curve_labels(ModuleType::Freeze)[2] == "PORTAMENTO"@,
        spec_curve_labels(ModuleType::Freeze)[3] == "RESISTANCE"@,
        spec_color_lit(ModuleType::Freeze).r == 0x50 && spec_color_lit(ModuleType::Freeze).g == 0x80 && spec_color_lit(ModuleType::Freeze).b == 0xc8,
        spec_color_dim(ModuleType::Freeze).r == 0x18 && spec_color_dim(ModuleType::Freeze).g == 0x28 && spec_color_dim(ModuleType::Freeze).b == 0x42,
        spec_display_name(ModuleType::PhaseSmear) == "Phase Smear"@,
        spec_num_curves(ModuleType::PhaseSmear) == 2,
        spec_curve_labels(ModuleType::PhaseSmear)[0] == "AMOUNT"@,
        spec_curve_labels(ModuleType::PhaseSmear)[1] == "SC SMOOTH"@,
        spec_color_lit(ModuleType::PhaseSmear).r == 0x90 && spec_color_lit(ModuleType::PhaseSmear).g == 0x60 && spec_color_lit(ModuleType::PhaseSmear).b == 0xc8,
        spec_color_dim(ModuleType::PhaseSmear).r == 0x30 && spec_color_dim(ModuleType::PhaseSmear).g == 0x20 && spec_color_dim(ModuleType::PhaseSmear).b == 0x42,
        spec_display_name(ModuleType::Contrast) == "Contrast"@,
        spec_num_curves(ModuleType::Contrast) == 2,
        spec_curve_labels(ModuleType::Contrast)[0] == "AMOUNT"@,
        spec_curve_labels(ModuleType::Contrast)[1] == "SC SMOOTH"@,
        spec_color_lit(ModuleType::Contrast).r == 0xb0 && spec_color_lit(ModuleType::Contrast).g == 0x60 && spec_color_lit(ModuleType::Contrast).b == 0xe0,
        spec_color_dim(ModuleType::Contrast).r == 0x38 && spec_color_dim(ModuleType::Contrast).g == 0x20 && spec_color_dim(ModuleType::Contrast).b == 0x48,
        spec_display_name(ModuleType::Gain) == "Gain"@,
        spec_num_curves(ModuleType::Gain) == 2,
        spec_curve_labels(ModuleType::Gain)[0] == "GAIN"@,
        spec_curve_labels(ModuleType::Gain)[1] == "SC SMOOTH"@,
        spec_color_lit(ModuleType::Gain).r == 0xc8 && spec_color_lit(ModuleType::Gain).g == 0xa0 && spec_color_lit(ModuleType::Gain).b == 0x50,
        spec_color_dim(ModuleType::Gain).r == 0x42 && spec_color_dim(ModuleType::Gain).g == 0x34 && spec_color_dim(ModuleType::Gain).b == 0x18,
        spec_display_name(ModuleType::MidSide) == "Mid/Side"@,
        spec_num_curves(ModuleType::MidSide) == 5,
        spec_curve_labels(ModuleType::MidSide)[0] == "BALANCE"@,
        spec_curve_labels(ModuleType::MidSide)[1] == "EXPANSION"@,
        spec_curve_labels(ModuleType::MidSide)[2] == "DECORREL"@,
        spec_curve_labels(ModuleType::MidSide)[3] == "TRANSIENT"@,
        spec_curve_labels(ModuleType::MidSide)[4] == "PAN"@,
        spec_color_lit(ModuleType::MidSide).r == 0xc0 && spec_color_lit(ModuleType::MidSide).g == 0x50 && spec_color_lit(ModuleType::MidSide).b == 0xa0,
        spec_color_dim(ModuleType::MidSide).r == 0x40 && spec_color_dim(ModuleType::MidSide).g == 0x18 && spec_color_dim(ModuleType::MidSide).b == 0x34,
        spec_display_name(ModuleType::TransientSustainedSplit) == "T/S Split"@,
        spec_num_curves(ModuleType::TransientSustainedSplit) == 1,
        spec_curve_labels(ModuleType::TransientSustainedSplit)[0] == "SENSITIVITY"@,
        spec_color_lit(ModuleType::TransientSustainedSplit).r == 0x80 && spec_color_lit(ModuleType::TransientSustainedSplit).g == 0xb0 && spec_color_lit(ModuleType::TransientSustainedSplit).b == 0x60,
        spec_color_dim(ModuleType::TransientSustainedSplit).r == 0x28 && spec_color_dim(ModuleType::TransientSustainedSplit).g == 0x38 && spec_color_dim(ModuleType::TransientSustainedSplit).b == 0x20,
        spec_display_name(ModuleType::Harmonic) == "Harmonic"@,
        spec_num_curves(ModuleType::Harmonic) == 0,
        spec_color_lit(ModuleType::Harmonic).r == 0x50 && spec_color_lit(ModuleType::Harmonic).g == 0xc8 && spec_color_lit(ModuleType::Harmonic).b == 0x80,
        spec_color_dim(ModuleType::Harmonic).r == 0x18 && spec_color_dim(ModuleType::Harmonic).g == 0x42 && spec_color_dim(ModuleType::Harmonic).b == 0x28,
        spec_display_name(ModuleType::Master) == "Master"@,
        spec_num_curves(ModuleType::Master) == 0,
        spec_color_lit(ModuleType::Master).r == 0xcc && spec_color_lit(ModuleType::Master).g == 0xcc && spec_color_lit(ModuleType::Master).b == 0xcc,
        spec_color_dim(ModuleType::Master).r == 0x44 && spec_color_dim(ModuleType::Master).g == 0x44 && spec_color_dim(ModuleType::Master).b == 0x44,
        spec_display_name(ModuleType::Empty) == "Empty"@,
        spec_num_curves(ModuleType::Empty) == 0,
        spec_color_lit(ModuleType::Empty).r == 0x33 && spec_color_lit(ModuleType::Empty).g == 0x33 && spec_color_lit(ModuleType::Empty).b == 0x33,
        spec_color_dim(ModuleType::Empty).r == 0x22 && spec_color_dim(ModuleType::Empty).g == 0x22 && spec_color_dim(ModuleType::Empty).b == 0x22,
        forall|ty: ModuleType| #[trigger] spec_num_curves(ty) <= 6,
        forall|ty: ModuleType| #[trigger] spec_num_curves(ty) == 6 <==> ty == ModuleType::Dynamics,
{
}

} // verus!
