pub mod audio;
pub mod cpu;
pub mod emu;
pub mod keyboard;
pub mod memory;
pub mod screen;
pub mod sound;
pub mod vm;
