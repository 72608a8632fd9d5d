# fxst

The verified core of an additive-synthesis audio library and of its devtool.

- `src/harmonic.rs`, `src/harmonic/waves.rs`: partials of the sine, sawtooth,
  square and triangle waves, as exact fractions, and the `Sound` and `Effect`
  traits with their contracts.
- `src/ui.rs`: the devtool's event loop as a state machine: which event sets
  up the first frame, which draws a frame, which exits; with its laws.
- `src/ui/surface.rs`: the drawing surface's settings.
- `src/ui/logo.rs`: decoding the devtool's logo from PNG bytes.
- `app/`: the windowing, GPU and floating-point code around the library.
