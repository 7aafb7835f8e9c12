use vstd::prelude::*;
use crate::dsp::modules::{ModuleType, spec_num_curves};

verus! {

/// The transient/sustained split module: one curve, two outputs.
pub struct TsSplitModule;

impl TsSplitModule {
    pub fn new() -> (m: Self) {
        TsSplitModule
    }

    pub fn module_type(&self) -> (t: ModuleType)
        ensures
            t == ModuleType::TransientSustainedSplit,
    {
        ModuleType::TransientSustainedSplit
    }

    /// Number of per-bin curves the module reads: as many as the metadata of
    /// its type (`module_spec`) announces.
    pub fn num_curves(&self) -> (n: usize)
        ensures
            n == 1,
            n == spec_num_curves(ModuleType::TransientSustainedSplit),
    {
        1
    }

    /// Number of separate outputs (transient and sustained).
    pub fn num_outputs(&self) -> (n: Option<usize>)
        ensures
            n == Some(2usize),
    {
        Some(2)
    }

    /// Extra output tail beyond one FFT window.
    pub fn tail_length(&self) -> (t: u32)
        ensures
            t == 0,
    {
        0
    }
}

} // verus!
