# liquid-glass

The verified core of a "liquid glass" effect for HTML elements: a WebGL2 overlay
that draws highlights, a rim light and refraction over an element whose background
the browser blurs with `backdrop-filter`.

- `src/` is the library, verified with Verus:
  - `tint.rs` reads a tint such as `#88ccff`, with laws on what it reads;
  - `state.rs` holds an effect's lifecycle (tint, canvas size, frame requests,
    pointer listener, teardown) and its laws;
  - `setup.rs` reads options from the options object or from `data-lg-*` attributes;
  - `shader.rs` holds the shaders and decides how compiling, linking and uniform
    lookup end from what the WebGL2 context reports;
  - `js.rs` declares the JavaScript value type and the calls made on it.
- `app/` is the browser side, built with `wasm-bindgen`: the `LiquidGlass` handle
  exported to JavaScript, the DOM and WebGL calls, the animation-frame loop and the
  floating-point parts of the effect.
- `tests/` runs the library's pure functions on the host.
