# player

Replays WebGPU traces recorded by `wgpu-core`.

- `src/` is the verified library. It decides, for each recorded action, which
  device operations replay it and in which order (`plan`), which actions cannot
  be replayed (`plan::refusal`), how a shader data file becomes a shader source
  (`shader`), and how recorded ids are passed through to the replaying device
  (`identity`). `laws` proves properties of that planning for every action and
  command list. Recorded descriptors and ids are carried through opaquely, over
  the types that a `trace::TraceTypes` implementation names.
- `app/` carries out the planned operations against a `wgpu-core` global: it
  holds the `GlobalPlay` trait and the `wgpu-core` trait implementations of the
  identity filters, converts recorded actions into the library's form, reads
  the trace's data files, and panics where a recorded action cannot be
  replayed or a device operation fails.
- `tests/` runs the planning on concrete actions.
