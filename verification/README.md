# autovocoder_nice

The parameter and update logic of an autovocoder audio plugin (CLAP/VST3),
verified with Verus.

- `src/enums.rs`: the enumerated parameters and their engine codes.
- `src/flags.rs`: `UpdateFlags`, the set of parameter groups whose new values
  still have to reach the vocoder engine, kept as bits of a `u32`.
- `src/params.rs`: the parameters, the flag each one raises when it changes,
  the integer ranges and the defaults of the non-continuous parameters.
- `src/update.rs`: the settings an update hands to the engine, and the laws
  that tie parameters, flags and settings together.
- `src/plugin.rs`: the scratch buffer after activation and the outcome of a
  call to process.
- `app/`: the plugin itself (host parameters, atomics, editor, presets and the
  calls into the vocoder engine), ordinary Rust around the library.
