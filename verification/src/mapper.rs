//! The bus: it owns RAM and ROM, holds the register bank, and routes every
//! address to one of the three.
//!
//! | addresses         | target                                   |
//! |-------------------|------------------------------------------|
//! | `0x0000..=0x5fff` | RAM                                      |
//! | `0x6000..=0x600f` | the sixteen slots of the register bank   |
//! | `0x6010..=0x7010` | RAM that the display shows               |
//! | `0x7011..=0x7fff` | RAM                                      |
//! | `0x8000..=0xffff` | ROM, which no write changes              |

use crate::bytes::{high_byte, join, low_byte, padded};
use crate::interface_adapter::{Adapter, AdapterView, RANDOM_LIMIT};
use crate::storage::Block;
use vstd::prelude::*;

verus! {

/// Size in bytes of RAM.
pub const RAM_SIZE: usize = 32768;

/// Size in bytes of ROM.
pub const ROM_SIZE: usize = 32768;

/// The last address that is not ROM.
pub const RAM_END: u16 = 0x7fff;

/// The first address of the register bank's window.
pub const IO_START: u16 = 0x6000;

/// The last address of the register bank's window.
pub const IO_END: u16 = 0x600f;

/// The first address that the display shows.
pub const FRAMEBUFFER_START: u16 = 0x6010;

/// The last address that the display shows.
pub const FRAMEBUFFER_END: u16 = 0x7010;

/// The address at which a byte write is fatal: the cartridge data slot.
pub const CARTRIDGE_DATA_ADDRESS: u16 = 0x6008;

/// The address of the random source.
pub const RANDOM_ADDRESS: u16 = 0x6009;

/// Whether `address` lies in the register bank's window.
pub open spec fn spec_in_io_window(address: u16) -> bool {
    IO_START <= address <= IO_END
}

/// Whether `address` lies in the register bank's window.
#[verifier::when_used_as_spec(spec_in_io_window)]
pub fn in_io_window(address: u16) -> (inside: bool)
    ensures
        inside == spec_in_io_window(address),
{
    IO_START <= address && address <= IO_END
}

/// Whether `address` lies in the memory that the display shows.
pub open spec fn spec_in_framebuffer(address: u16) -> bool {
    FRAMEBUFFER_START <= address <= FRAMEBUFFER_END
}

/// Whether `address` lies in the memory that the display shows.
#[verifier::when_used_as_spec(spec_in_framebuffer)]
pub fn in_framebuffer(address: u16) -> (inside: bool)
    ensures
        inside == spec_in_framebuffer(address),
{
    FRAMEBUFFER_START <= address && address <= FRAMEBUFFER_END
}

/// Whether `address` lies in ROM.
pub open spec fn spec_in_rom(address: u16) -> bool {
    address > RAM_END
}

/// Whether `address` lies in ROM.
#[verifier::when_used_as_spec(spec_in_rom)]
pub fn in_rom(address: u16) -> (inside: bool)
    ensures
        inside == spec_in_rom(address),
{
    address > RAM_END
}

/// What the bus holds, as plain values.
pub struct BusView {
    pub fbuf_changed: bool,
    pub rom: Seq<u8>,
    pub ram: Seq<u8>,
    pub int_adapter: AdapterView,
}

impl BusView {
    /// RAM, ROM and the cartridge image have their full sizes.
    pub open spec fn wf(self) -> bool {
        &&& self.rom.len() == ROM_SIZE
        &&& self.ram.len() == RAM_SIZE
        &&& self.int_adapter.wf()
    }

    /// The bus as it is made around a ROM image: RAM all zeros, the register
    /// bank fresh, the display marked as changed.
    pub open spec fn initial(image: Seq<u8>) -> BusView {
        BusView {
            fbuf_changed: true,
            rom: padded(image, ROM_SIZE as nat),
            ram: padded(Seq::empty(), RAM_SIZE as nat),
            int_adapter: AdapterView::initial(),
        }
    }

    /// The ROM byte that `address` selects. ROM repeats every `ROM_SIZE`
    /// bytes, so the address after the last one selects the first byte.
    pub open spec fn rom_byte(self, address: int) -> u8 {
        self.rom[address % (ROM_SIZE as int)]
    }

    /// The byte that a read at `address` gives. `draw` is what the random
    /// source hands out for this read; only the random slot of the register
    /// bank passes it on.
    pub open spec fn read_byte(self, address: u16, draw: u8) -> u8 {
        if in_io_window(address) {
            self.int_adapter.read_byte((address - IO_START) as u16, draw)
        } else if in_rom(address) {
            self.rom_byte(address as int)
        } else {
            self.ram[address as int]
        }
    }

    /// The bus after `value` is written at `address`. A write to ROM changes
    /// nothing. A write into the displayed memory marks the display as
    /// changed. The cartridge data slot must not be written.
    pub open spec fn write_byte(self, value: u8, address: u16) -> BusView
        recommends
            address != CARTRIDGE_DATA_ADDRESS,
    {
        if in_io_window(address) {
            BusView {
                int_adapter: self.int_adapter.write_byte(value, (address - IO_START) as u16),
                ..self
            }
        } else if in_rom(address) {
            self
        } else {
            BusView {
                fbuf_changed: self.fbuf_changed || in_framebuffer(address),
                ram: self.ram.update(address as int, value),
                ..self
            }
        }
    }

    /// The little-endian word that a word read at `address` gives.
    ///
    /// In the register bank's window the bank answers; for the interrupt
    /// latch, the last slot, the word is the latch and the RAM byte behind the
    /// window. Elsewhere the low byte comes from `address` and the high byte
    /// from the address after it: from RAM behind a RAM address, from the
    /// start of ROM behind the last RAM address, from ROM behind a ROM
    /// address.
    pub open spec fn read_word(self, address: u16, draw: u8) -> u16 {
        if in_io_window(address) {
            match self.int_adapter.read_word((address - IO_START) as u16, draw) {
                Some(word) => word,
                None => join(self.int_adapter.interrupt_id, self.ram[address + 1]),
            }
        } else if in_rom(address) {
            join(self.rom_byte(address as int), self.rom_byte(address + 1))
        } else if address == RAM_END {
            join(self.ram[address as int], self.rom_byte(address + 1))
        } else {
            join(self.ram[address as int], self.ram[address + 1])
        }
    }

    /// The bus after the word `value` is written at `address`, low byte
    /// first.
    ///
    /// In the register bank's window the bank takes the word; of a word
    /// written to the interrupt latch it takes the low byte, and the high byte
    /// goes to the RAM byte behind the window, which the display shows.
    /// Elsewhere each byte goes to its own address: a byte that falls into
    /// ROM is dropped, and the display is marked as changed if either address
    /// lies in the displayed memory.
    pub open spec fn write_word(self, value: u16, address: u16) -> BusView {
        if in_io_window(address) {
            let int_adapter = self.int_adapter.write_word(value, (address - IO_START) as u16);
            if address == IO_END {
                BusView {
                    fbuf_changed: true,
                    ram: self.ram.update(address + 1, high_byte(value)),
                    int_adapter,
                    ..self
                }
            } else {
                BusView { int_adapter, ..self }
            }
        } else if in_rom(address) {
            self
        } else {
            let low_stored = self.ram.update(address as int, low_byte(value));
            BusView {
                fbuf_changed: self.fbuf_changed || in_framebuffer(address) || in_framebuffer(
                    (address + 1) as u16,
                ),
                ram: if address == RAM_END {
                    low_stored
                } else {
                    low_stored.update(address + 1, high_byte(value))
                },
                ..self
            }
        }
    }
}

/// The bus.
pub struct Mapper {
    /// Set by every write into the displayed memory; whoever redraws the
    /// display clears it.
    pub fbuf_changed: bool,
    pub rom: Block<ROM_SIZE>,
    pub ram: Block<RAM_SIZE>,
    pub int_adapter: Adapter,
}

impl View for Mapper {
    type V = BusView;

    open spec fn view(&self) -> BusView {
        BusView {
            fbuf_changed: self.fbuf_changed,
            rom: self.rom@,
            ram: self.ram@,
            int_adapter: self.int_adapter@,
        }
    }
}

impl Mapper {
    /// A bus around the ROM image `image`, cut or filled with zeros to
    /// `ROM_SIZE` bytes.
    pub fn new(image: Vec<u8>) -> (bus: Mapper)
        ensures
            bus@ == BusView::initial(image@),
    {
        Mapper {
            fbuf_changed: true,
            rom: Block::new(image),
            ram: Block::new(Vec::new()),
            int_adapter: Adapter::new(),
        }
    }

    /// The ROM byte that `address` selects.
    fn rom_byte(&self, address: u16) -> (byte: u8)
        ensures
            byte == self@.rom_byte(address as int),
    {
        self.rom.get((address % 0x8000) as usize)
    }

    /// Writes `value` at `address`.
    pub fn write_byte(&mut self, value: u8, address: u16)
        requires
            address != CARTRIDGE_DATA_ADDRESS,
        ensures
            final(self)@ == old(self)@.write_byte(value, address),
    {
        if in_io_window(address) {
            self.int_adapter.write_byte(value, address - IO_START);
        } else if !in_rom(address) {
            if in_framebuffer(address) {
                self.fbuf_changed = true;
            }
            self.ram.set(address as usize, value);
        }
    }

    /// Reads the byte at `address`.
    pub fn read_byte(&self, address: u16) -> (byte: u8)
        ensures
            exists|draw: u8| draw < RANDOM_LIMIT && byte == self@.read_byte(address, draw),
    {
        if in_io_window(address) {
            let slot = address - IO_START;
            let byte = self.int_adapter.read_byte(slot);
            proof {
                let draw = choose|draw: u8|
                    draw < RANDOM_LIMIT && byte == self.int_adapter@.read_byte(slot, draw);
                assert(byte == self@.read_byte(address, draw));
            }
            byte
        } else if in_rom(address) {
            let byte = self.rom_byte(address);
            assert(byte == self@.read_byte(address, 0));
            byte
        } else {
            let byte = self.ram.get(address as usize);
            assert(byte == self@.read_byte(address, 0));
            byte
        }
    }

    /// Writes the word `value` at `address`, low byte first.
    pub fn write_word(&mut self, value: u16, address: u16)
        ensures
            final(self)@ == old(self)@.write_word(value, address),
    {
        if in_io_window(address) {
            if self.int_adapter.write_word(value, address - IO_START) {
                self.fbuf_changed = true;
                self.ram.set(address as usize + 1, high_byte(value));
            }
        } else if !in_rom(address) {
            if in_framebuffer(address) || in_framebuffer(address + 1) {
                self.fbuf_changed = true;
            }
            self.ram.set(address as usize, low_byte(value));
            if address != RAM_END {
                self.ram.set(address as usize + 1, high_byte(value));
            }
        }
    }

    /// Reads the little-endian word at `address`.
    pub fn read_word(&self, address: u16) -> (word: u16)
        ensures
            exists|draw: u8| draw < RANDOM_LIMIT && word == self@.read_word(address, draw),
    {
        if in_io_window(address) {
            let slot = address - IO_START;
            let answer = self.int_adapter.read_word(slot);
            let word = match answer {
                Some(word) => word,
                None => join(self.int_adapter.interrupt_id, self.ram.get(address as usize + 1)),
            };
            proof {
                let draw = choose|draw: u8|
                    draw < RANDOM_LIMIT && answer == self.int_adapter@.read_word(slot, draw);
                assert(word == self@.read_word(address, draw));
            }
            word
        } else if in_rom(address) {
            let next: u16 = if address == 0xffff {
                0
            } else {
                address + 1
            };
            let word = join(self.rom_byte(address), self.rom_byte(next));
            assert(word == self@.read_word(address, 0));
            word
        } else if address == RAM_END {
            let word = join(self.ram.get(address as usize), self.rom_byte(0));
            assert(word == self@.read_word(address, 0));
            word
        } else {
            let word = join(self.ram.get(address as usize), self.ram.get(address as usize + 1));
            assert(word == self@.read_word(address, 0));
            word
        }
    }
}

} // verus!
