use vstd::prelude::*;

pub mod spectral_compressor;

verus! {

#[derive(Debug, Clone, Copy, PartialEq, Eq, Structural)]
pub enum EngineSelection {
    SpectralCompressor,
}

} // verus!
