//! A Game Boy (DMG) emulator core: CPU, memory bus with cartridge bank
//! switching, timers, interrupts, LCD status and tile rendering.

pub mod bits;
pub mod registers;
pub mod machine;
pub mod cpu;
pub mod gameboy;
pub mod render;
pub mod sound;
pub mod emulator;
pub mod run;
pub mod names;
pub mod screen;
pub mod pixel_canvas;
pub mod cell_canvas;
pub mod laws;
