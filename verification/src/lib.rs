//! The core of an NES emulator: a cycle-stepped 6502 interpreter, the memory
//! bus it sees, the cartridge behind program memory and a raster-counting
//! picture unit.
//!
//! Every executable function carries a contract over a mathematical model of
//! the machine: the register file itself, and views of the bus, the cartridge
//! and the picture unit as sequences of bytes. An instruction is a function
//! from one state of that model to the next; `operations` and `addressing`
//! define these functions and the processor's methods are proved to compute
//! them. `laws` states what follows for flags, the stack and timing.
//!
//! The machine does no input or output. A host reads the ROM image and hands
//! over its bytes; it asks for trace lines and prints them.

pub mod addressing;
pub mod bus;
pub mod bytes;
pub mod cartridge;
pub mod cpu;
pub mod flags;
pub mod instructions;
pub mod laws;
pub mod mnemonic;
pub mod nes;
pub mod operations;
pub mod ppu;
pub mod preserved;
pub mod trace;
