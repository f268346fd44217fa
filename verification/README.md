# pumicite_sr

Vendor-neutral super resolution: an application asks a physical device for its upscaling
engines, creates a session from one of them, and records dispatches that upscale a rendered
image. NVIDIA's DLSS Ray Reconstruction, Apple's MetalFX scalers and a plain Vulkan blit do
the work.

What is decided and computed on the way is written in Verus and proved; what touches a
vendor's library is ordinary Rust around it.

## Layout

- `src/` is the library. `types`, `flags` and `vk` hold the values that callers and backends
  exchange; `engine` what the backends share in describing their engines; `blit`, `dlss` and
  `metalfx` are the backends; `session` is the interface itself, whichever backend is in use.
- `src/single`, `rounding`, `arith`, `halton`, `halton_bounds`, `radical` and `jitter` do the
  single-precision arithmetic that upscale ratios and jitter patterns rest on, on bit
  patterns: round to nearest, ties to even. The proofs hold the results to that rounding;
  `tests/arithmetic.rs` compares them with what the machine's float instructions give.
- `tests/` runs the library.
- `app/` holds the handles, calls Vulkan, Metal and NGX, and hands their answers to the
  library.
- `extras/dlss_wrapper.c` gives two inline helpers of the NGX SDK C linkage;
  `extras/build_dlss_wrapper.sh` compiles it on Linux.

## Reading the proofs

Each function states in its contract what it returns, for every input it takes. Public proof
functions whose names start with `law_` state what holds of several functions together, or of
every state: that an engine reports formats exactly for the images it uses, that a dispatch
writes its output and nothing else, that NGX is initialized once, that a session has the
feature of the last creation that succeeded, that the jitter pattern of a smaller upscale
ratio is how that of a larger one starts, that a Halton value in base two is the radical
inverse of its index, for indices below 2^24, and that one in base three lies within a
millionth of it.

Jitter offsets lie in `[-0.5, 0.5)`, but for positions whose lowest twenty-five bits are all
one: there the sum in base two is rounded up to one, and the offset along the first axis comes
to 0.5. MetalFX's patterns take the largest single below one in its place. DLSS's keep the
0.5; no pattern for an upscaling of 64 or less is long enough to hold one.

One function is trusted: `dlss::runtime::extension_name_as_c_str`, which has `ash` read the
name of a Vulkan extension.
