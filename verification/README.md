# engine — target-size image compression, verified

`engine` compresses images so that each output fits a byte cap with the best quality available:
it decodes a file once, sizes it (fit by longest edge, or crop-to-fill an exact size), binary-searches
the encoder quality for the largest file still under the cap, shrinks the image when even the lowest
quality overshoots, and names and writes the result under a collision policy. When metadata is
kept, the search leaves room for the re-embedded ICC profile, and a profile that would still take
the file over the cap is left out, so every output the library writes fits its cap (proved in
`job::on_search`). `imgc` is its
command-line front end.

## Layout

- `src/` — the library, written in Verus. Every function carries a `requires`/`ensures` contract
  proved by the verifier. The pixel codecs (`image`, `fast_image_resize`, `oxipng`, `ravif`,
  `moxcms`, `img-parts`, `kamadak-exif`) are called through small trusted functions whose contracts
  name what each call returns, or, where the result depends on the machine (the colour transform
  picks its SIMD path at run time), state only what holds of every outcome.
  - `target` — the quality search at one image size, and the decision after it.
  - `process`, `job` — one file from its bytes to its outcome, as decisions around the caller's
    file reads, searches, existence checks and writes.
  - `crop`, `resize`, `raster` — crop-to-fill geometry, long-edge bounds, pixel layouts.
  - `metadata` — EXIF orientation, ICC profiles, lossless metadata stripping.
  - `naming`, `rename`, `paths` — output names, rename patterns, collision resolution.
  - `watch` — folder-watch ingest rules and the settle tracking of files being written.
  - `calendar` — civil dates for the `{date}` token.
  - `shell`, `cli` — the OS context-menu integration text and command-line rules.
- `app/` — `imgc`: argument parsing, filesystem walking and I/O, the parallel batch, and the parts
  that work in floating point (the shrink factor of the size search, SSIM/PSNR, size parsing).
- `tests/` — tests of the library.
