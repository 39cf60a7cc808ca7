[package]
name = "gameboy_wasm"
version = "0.1.0"
edition = "2021"
publish = false

[dependencies]
bit-vec = "0.6"
wasm-bindgen = { version = "0.2", features = ["serde-serialize"] }
web-sys = { version = "0.3", features = ["AudioContext", "AudioDestinationNode", "AudioNode", "AudioParam", "BaseAudioContext", "OscillatorType", "OscillatorNode", "GainNode", "CanvasRenderingContext2d", "HtmlCanvasElement", "ImageData", "Document", "Element", "HtmlElement", "Window", "Performance"] }
serde = { version = "1", features = ["derive"] }
serde_derive = "1"
log = "0.4"
console_log = "0.2"
