use vstd::prelude::*;
use crate::dsp::modules::Rgb;

verus! {

/// Number of nodes of a curve.
pub const NUM_CURVE_NODES: usize = 6;

#[derive(Clone, Copy, Debug, PartialEq, Eq, Structural)]
pub enum BandType {
    LowShelf,
    Bell,
    HighShelf,
}

/// The band shape of node `index`: the first node is a low shelf, the last of
/// the six a high shelf, all others bells.
pub open spec fn spec_band_type_for(index: usize) -> BandType {
    if index == 0 {
        BandType::LowShelf
    } else if index == 5 {
        BandType::HighShelf
    } else {
        BandType::Bell
    }
}

pub fn band_type_for(index: usize) -> (b: BandType)
    ensures
        b == spec_band_type_for(index),
{
    match index {
        0 => BandType::LowShelf,
        5 => BandType::HighShelf,
        _ => BandType::Bell,
    }
}

/// Unit label of the y axis of each of the seven dynamics curves.
pub open spec fn spec_curve_y_unit(curve_idx: int) -> Seq<char> {
    if curve_idx == 0 {
        "dBFS"@
    } else if curve_idx == 1 {
        "x"@
    } else if curve_idx == 2 || curve_idx == 3 {
        "ms"@
    } else if curve_idx == 4 || curve_idx == 5 {
        "dB"@
    } else {
        "%"@
    }
}

/// Unit label of the y axis of curve `curve_idx`, for the cursor tooltip.
pub fn curve_y_unit(curve_idx: usize) -> (u: &'static str)
    requires
        curve_idx < 7,
    ensures
        u@ == spec_curve_y_unit(curve_idx as int),
{
    match curve_idx {
        0 => "dBFS",
        1 => "x",
        2 | 3 => "ms",
        4 | 5 => "dB",
        _ => "%",
    }
}

/// A colour channel brightened by 40, saturating at 255.
pub open spec fn spec_lighten(c: u8) -> u8 {
    if c as int + 40 > 255 {
        255
    } else {
        (c + 40) as u8
    }
}

/// The hover colour of a node handle: each channel of the lit curve colour
/// brightened by 40, saturating at 255.
pub fn hover_color(c: Rgb) -> (h: Rgb)
    ensures
        h.r == spec_lighten(c.r),
        h.g == spec_lighten(c.g),
        h.b == spec_lighten(c.b),
{
    Rgb { r: lighten(c.r), g: lighten(c.g), b: lighten(c.b) }
}

fn lighten(c: u8) -> (l: u8)
    ensures
        l == spec_lighten(c),
{
    let wide: u16 = c as u16 + 40;
    if wide > 255 {
        255
    } else {
        wide as u8
    }
}

/// The node shapes of a curve: its first node is a low shelf, its last (the
/// sixth) a high shelf, and every other index a bell.
pub proof fn lemma_band_types(index: usize)
    ensures
        spec_band_type_for(index) == BandType::LowShelf <==> index == 0,
        spec_band_type_for(index) == BandType::HighShelf <==> index == 5,
        spec_band_type_for(index) == BandType::Bell <==> (index != 0 && index != 5),
{
}

/// The axis units of the seven dynamics curves: threshold in dBFS, ratio as a
/// factor, attack and release in ms, knee and makeup in dB, mix in percent.
pub proof fn lemma_curve_units()
    ensures
        spec_curve_y_unit(0) == "dBFS"@,
        spec_curve_y_unit(1) == "x"@,
        spec_curve_y_unit(2) == "ms"@,
        spec_curve_y_unit(3) == "ms"@,
        spec_curve_y_unit(4) == "dB"@,
        spec_curve_y_unit(5) == "dB"@,
        spec_curve_y_unit(6) == "%"@,
{
}

/// Brightening a channel never darkens it, adds exactly 40 where that stays
/// within 255, and saturates at 255 otherwise.
pub proof fn lemma_lighten(c: u8)
    ensures
        spec_lighten(c) >= c,
        c <= 215 ==> spec_lighten(c) == c + 40,
        c > 215 ==> spec_lighten(c) == 255,
{
}

} // verus!
