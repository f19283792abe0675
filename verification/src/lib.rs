//! A CHIP-8 virtual machine: memory, registers, timers, a pseudo-random
//! generator, a monochrome display and the scheduler that paces them.

pub mod bus;
pub mod chip8;
pub mod clock;
pub mod cpu;
pub mod crc16;
pub mod error;
pub mod io;
pub mod options;
pub mod window;
mod time;

pub use chip8::Chip8;
pub use io::Screen;
pub use io::IO;
