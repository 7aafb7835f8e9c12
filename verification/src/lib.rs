//! Spectral Forge: the plain-value logic of a spectral compressor and effects
//! processor: slot routing, the delta monitor's delay line, the phase
//! randomiser's generator, the freeze latches, module metadata and the
//! editor's selection state.

pub mod bridge;
pub mod dsp;
pub mod editor;
pub mod editor_ui;
pub mod params;
