# dattorro_reverb

A Dattorro plate reverb as a VST2 effect plugin (mono in, stereo out) with an
egui editor of four sliders: bandwidth, damping, decay and mix.

- `src/` is the verified core:
  - `params`: the host's parameter indices, defaults, slider ranges, and a
    store with one value per parameter;
  - `graph`: a plan of an audio graph (nodes, ordered edges, tags) and the
    operations that build one;
  - `reverb`: the reverb's graph, built with those operations, its tables
    of nodes, edges and tags, and the engine setup (48000 samples per
    second, two channels, 128-sample blocks);
  - `control`: which tagged nodes a parameter change is sent to, for one
    parameter or for a set of changed ones;
  - `blocks`: how a host buffer is cut into the engine's 128-sample blocks;
  - `editor`: the editor window's geometry and open/closed state;
  - `info`: what the plugin announces to the host.
- `app/` is the plugin itself: the `vst` traits, the glicol audio engine
  built from the reverb's plan, the egui/baseview window and logging.
  Everything that handles floating-point samples or parameter values lives
  there.

Fixed-point settings in the core stand for `setting / 10_000`; the engine
turns them into the floating-point values it is built with.
