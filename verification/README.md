# vello_bench2

The verified core of a browser playground that benchmarks Vello renderers.

- `src/` is the library, written in Verus: the configuration and validation of
  the external-texture benchmark, the parsing of its setup form, the decision
  core of its runner, the decision cores of the benchmark harness and of the
  calibration harness (state machines that a page loop would drive frame by
  frame), the calibration search, the predefined benchmarks and the choice of
  calibration targets, backend names and capabilities and the choice of the
  scene to show, the SVG scene (download bookkeeping, Brotli decompression,
  premultiplication of embedded images, conversion of a parsed document into
  draw commands, and the backend calls of a frame), PNG encoding, and the
  probe mismatch report.
- `tests/` exercises the library on concrete values.
- `app/` holds the browser side of the external-texture benchmark (DOM,
  WebGL rendering through Vello Hybrid, floating-point frame timing), the
  WebAssembly entry points of the PNG benchmark, local storage and the probe
  report. No page here drives the benchmark harness, the calibration harness,
  the predefined benchmarks, the scene choice or the SVG scene: the
  playground's other scenes, rendering backends and page are not part of
  this repository.
