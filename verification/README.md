# oxcms

A colour management system in Rust whose core is verified with Verus.

## Layout

- `src/` — the verified library `oxcms_core`:
  - `icc/` — ICC profile parsing: big-endian fields (`bytes`), the header (`header`),
    the tag table (`parser`), tag types (`tags/`: XYZ, curves, text, LUTs), fixed-point
    and signature types (`types`), errors with their messages (`error`), and laws of
    parsing (`tag_table`). Every parse is specified by a spec function over the bytes;
    tag values are kept exactly as stored (fixed-point numbers, table entries).
  - `profile` — `ColorProfile`, a moxcms profile next to the plain values the library
    reads from it; moxcms is reached through trusted wrappers.
  - `transform`, `types`, `pipeline`, `math`, `color`, `simd` — the exact vocabulary of
    transforms: layouts, intents, options, flags, curve kinds, illuminant names, SIMD
    feature names.
  - `error`, `numfmt` — the error type and decimal/hexadecimal rendering.
- `tests/` — tests of the library, run against the real moxcms.
- `app/` — ordinary Rust around the library: the error type with `thiserror`, transforms
  that hold moxcms executors, and the floating-point colour mathematics (colour spaces,
  curve evaluation, interpolation, LUT and matrix-shaper pipelines, SIMD kernels).
