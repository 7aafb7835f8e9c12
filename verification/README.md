# Spectral Forge — verified core

Spectral Forge is a spectral compressor and effects processor (a CLAP plugin).
This crate holds the parts of its logic that work on plain values, each with a
contract proved by Verus:

- `dsp::fx_matrix` — channel gating and engine choice of a Dynamics slot, and
  the plan of one STFT hop through the slot chain (main input, forward and
  feedback sends, which slot's output is written back).
- `dsp::pipeline` — the delta monitor's dry-signal delay line (with the law that
  each dry sample comes back exactly one FFT window later), the phase
  randomiser's xorshift64 draws (never zero, DC and Nyquist skipped), and the
  Freeze capture latch and hold counter.
- `dsp::modules`, `dsp::engines` — module types and their metadata table,
  module and engine descriptors.
- `editor`, `editor_ui` — node band types, axis units, the routing grid's cell
  layout and styles, and the editor's selection state machine.
- `params` — the plugin's enums and the default slot configuration.

`app/` is the plugin around it: host glue, parameters, the egui editor and the
floating-point signal processing, which call into this crate for the
decisions above.
