# apxinf_model

The decisions of a hybrid Qwen3.5 text model, its multimodal positions and its
vision tower, written in Rust and verified with Verus.

The model alternates linear-attention and full-attention layers. Parts of it can
be handed to an accelerator: single blocks, whole layers, stacks of three layers,
or a fixed schedule of transactions that covers the body and the head. The
library owns everything that is decided about such a run:

- which tensors a checkpoint has to hold, and how they are laid out for the run,
- which block runs which layer, and who owns the recurrent state,
- what is counted, and what a receipt of the run says,
- what an error leaves behind: a lane whose state was partly moved on refuses
  every forward until it is reset,
- which token wins, with exact ties going to the lowest one.

Kernels, the accelerator, files and clocks stay outside. A forward is a loop: the
library names a piece of work, the caller does it and reports the outcome, and the
library says what comes next. Floats pass through the library as bit patterns.

- `src/` is the verified library. `src/qwen35/laws.rs` and the public proof
  functions beside the data structures state what holds over several calls.
  `src/qwen35/one_shot.rs` states, for any kernels that go row by row, that a
  stream gives the same however its tokens are cut into forwards.
- `tests/` runs the library with a small model whose outside work is done by a rig.
- `app/` is the host side: the loop, the floating-point chains, the files.

Two outside crates are called from the library: `half`, to widen brain floats, and
`serde_json`, to read configurations. Each call is a small function that says what
is taken from the crate on trust.
