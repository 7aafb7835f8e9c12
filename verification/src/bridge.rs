use vstd::prelude::*;

verus! {

/// Number of per-bin parameter curves sent from the editor to the audio thread.
pub const NUM_CURVES: usize = 7;
pub const CURVE_THRESHOLD: usize = 0;
pub const CURVE_RATIO: usize = 1;
pub const CURVE_ATTACK: usize = 2;
pub const CURVE_RELEASE: usize = 3;
pub const CURVE_KNEE: usize = 4;
pub const CURVE_MAKEUP: usize = 5;
pub const CURVE_MIX: usize = 6;

/// Number of per-bin Freeze curves (Length, Threshold, Portamento, Resistance).
pub const NUM_FREEZE_CURVES: usize = 4;

} // verus!
