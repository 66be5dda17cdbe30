//! An emulator for a small computer built around a 6502-family processor.
//!
//! The computer has 32 KiB of RAM, 32 KiB of ROM, a bank of sixteen
//! memory-mapped registers for its peripherals, and a text display that shows
//! a part of RAM. This library holds all of it that computes:
//!
//! - [`opcodes`]: the opcode table;
//! - [`interface_adapter`]: the register bank;
//! - [`mapper`]: the bus, which routes every address to RAM, ROM or the
//!   register bank;
//! - [`machine`]: the processor as a mathematical model, a function from one
//!   machine state to the next;
//! - [`cpu`]: the processor itself, which is proved to do what the model
//!   says;
//! - [`ppu`]: the text display;
//! - [`emu`]: the computer as a host drives it, frame by frame;
//! - [`laws`]: what is proved of all of these together;
//! - [`bytes`] and [`storage`]: words, bytes and blocks of memory.
//!
//! Reading files, opening a window and keeping time are left to the program
//! that uses the library.

pub mod bytes;
pub mod storage;
pub mod opcodes;
pub mod interface_adapter;
pub mod mapper;
pub mod machine;
pub mod cpu;
pub mod ppu;
pub mod emu;
pub mod laws;
