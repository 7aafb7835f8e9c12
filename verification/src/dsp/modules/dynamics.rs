use vstd::prelude::*;
use crate::dsp::modules::{ModuleType, spec_num_curves};

verus! {

/// The Dynamics module (compressor / contrast, six per-bin curves).
pub struct DynamicsModule;

impl DynamicsModule {
    pub fn new() -> (m: Self) {
        DynamicsModule
    }

    pub fn module_type(&self) -> (t: ModuleType)
        ensures
            t == ModuleType::Dynamics,
    {
        ModuleType::Dynamics
    }

    /// Number of per-bin curves the module reads: as many as the metadata of
    /// its type (`module_spec`) announces.
    pub fn num_curves(&self) -> (n: usize)
        ensures
            n == 6,
            n == spec_num_curves(ModuleType::Dynamics),
    {
        6
    }

    /// Number of separate outputs; `None` for a module with a single output.
    pub fn num_outputs(&self) -> (n: Option<usize>)
        ensures
            n is None,
    {
        None
    }

    /// Extra output tail beyond one FFT window.
    pub fn tail_length(&self) -> (t: u32)
        ensures
            t == 0,
    {
        0
    }
}

} // verus!
