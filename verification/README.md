# gameboy_wasm

A Game Boy (DMG) emulator core whose behaviour is stated in Verus contracts and
proved: the SM83 CPU, the memory bus with MBC1/MBC2 bank switching, timers,
interrupts, LCD status, tile and sprite rendering to RGBA image data, and the
decoding of sound channel 1.

- `src/` is the verified library. Each module states its mathematical model
  (`MachineModel`, `GameboyModel`) and specifies every operation over it;
  `src/laws.rs` holds the properties that relate several operations (reads
  after writes, push/pop and call/return, inverse rotations, saved states).
- `app/` is the browser side: the JavaScript-facing console built with
  `wasm-bindgen`, the canvases and the Web Audio oscillator (`web-sys`), JSON
  save states (`serde`) and logging. It runs the instruction loops one library
  iteration at a time and performs the drawing, sound and serial output that each
  iteration asks for.
- `tests/` runs the library on concrete programs and states.
