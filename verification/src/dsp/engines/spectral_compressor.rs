use vstd::prelude::*;

verus! {

/// The spectral compressor engine of the Dynamics slot.
pub struct SpectralCompressorEngine;

impl SpectralCompressorEngine {
    pub fn new() -> (e: Self) {
        SpectralCompressorEngine
    }

    /// The engine's display name.
    pub fn name(&self) -> (n: &'static str)
        ensures
            n@ == "Spectral Compressor"@,
    {
        "Spectral Compressor"
    }

    /// Tail after silence: one FFT window, in samples (the low 32 bits of
    /// `fft_size`, as the conversion to `u32` keeps them).
    pub fn tail_length(&self, fft_size: usize) -> (t: u32)
        ensures
            t == fft_size as u32,
    {
        fft_size as u32
    }
}

} // verus!
