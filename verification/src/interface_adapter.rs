//! The memory-mapped peripheral register bank: sixteen register slots that
//! expose the ports, keyboard, mouse, cartridge image, random source and
//! interrupt latch of the machine to the bus.

use crate::bytes::{high_byte, join, low_byte, padded};
use crate::storage::Block;
use vstd::prelude::*;

verus! {

/// Size in bytes of the cartridge image.
pub const MAX_ROM_SIZE: u32 = 16_777_216;

/// Size in bytes of the cartridge image, as a length.
pub const CARTRIDGE_SIZE: usize = 16_777_216;

// Values of the interrupt latch by which the host names an event.
pub const KEYDOWN: u8 = 0xff;
pub const KEYUP: u8 = 0xfe;
pub const MOUSE_LCLICK: u8 = 0xfd;
pub const MOUSE_RCLICK: u8 = 0xfc;

// The register slots.
pub const PORT_B: u16 = 0x0;
pub const PORT_A: u16 = 0x1;
pub const KEYBOARD: u16 = 0x2;
pub const MOUSE_X: u16 = 0x3;
pub const MOUSE_Y: u16 = 0x4;
pub const POINTER_LOW: u16 = 0x5;
pub const POINTER_MID: u16 = 0x6;
pub const POINTER_HIGH: u16 = 0x7;
pub const CARTRIDGE_DATA: u16 = 0x8;
pub const RANDOM: u16 = 0x9;
pub const INTERRUPT_ID: u16 = 0xf;

/// Every byte that the random source gives is below this value.
pub const RANDOM_LIMIT: u8 = 0xff;

/// What the register bank holds, as plain values.
pub struct AdapterView {
    pub port_a: u8,
    pub port_b: u8,
    pub keyb: u8,
    pub mouse_x: u8,
    pub mouse_y: u8,
    pub pointer_low: u8,
    pub pointer_mid: u8,
    pub pointer_high: u8,
    pub rom: Seq<u8>,
    pub interrupt_id: u8,
}

impl AdapterView {
    /// The cartridge image has its full size.
    pub open spec fn wf(self) -> bool {
        self.rom.len() == MAX_ROM_SIZE
    }

    /// The bank as it is made: every register zero, the cartridge image all
    /// zeros.
    pub open spec fn initial() -> AdapterView {
        AdapterView {
            port_a: 0,
            port_b: 0,
            keyb: 0,
            mouse_x: 0,
            mouse_y: 0,
            pointer_low: 0,
            pointer_mid: 0,
            pointer_high: 0,
            rom: padded(Seq::empty(), MAX_ROM_SIZE as nat),
            interrupt_id: 0,
        }
    }

    /// The 24-bit cartridge pointer that slots 5 to 7 hold.
    pub open spec fn rom_ptr(self) -> u32 {
        (self.pointer_low + 256 * self.pointer_mid + 65536 * self.pointer_high) as u32
    }

    /// The byte of the cartridge image that the pointer selects.
    pub open spec fn cartridge_byte(self) -> u8 {
        self.rom[self.rom_ptr() as int]
    }

    /// The byte that a read of slot `address` gives. `draw` is what the random
    /// source hands out for this read; only slot 9 passes it on. A slot that
    /// does not exist reads as zero.
    pub open spec fn read_byte(self, address: u16, draw: u8) -> u8 {
        match address {
            PORT_B => self.port_b,
            PORT_A => self.port_a,
            KEYBOARD => self.keyb,
            MOUSE_X => self.mouse_x,
            MOUSE_Y => self.mouse_y,
            POINTER_LOW => self.pointer_low,
            POINTER_MID => self.pointer_mid,
            POINTER_HIGH => self.pointer_high,
            CARTRIDGE_DATA => self.cartridge_byte(),
            RANDOM => draw,
            INTERRUPT_ID => self.interrupt_id,
            _ => 0,
        }
    }

    /// The bank after `value` is written to slot `address`. Writes to the
    /// random source and to slots that do not exist change nothing. The
    /// cartridge data slot must not be written at all.
    pub open spec fn write_byte(self, value: u8, address: u16) -> AdapterView
        recommends
            address != CARTRIDGE_DATA,
    {
        match address {
            PORT_B => AdapterView { port_b: value, ..self },
            PORT_A => AdapterView { port_a: value, ..self },
            KEYBOARD => AdapterView { keyb: value, ..self },
            MOUSE_X => AdapterView { mouse_x: value, ..self },
            MOUSE_Y => AdapterView { mouse_y: value, ..self },
            POINTER_LOW => AdapterView { pointer_low: value, ..self },
            POINTER_MID => AdapterView { pointer_mid: value, ..self },
            POINTER_HIGH => AdapterView { pointer_high: value, ..self },
            INTERRUPT_ID => AdapterView { interrupt_id: value, ..self },
            _ => self,
        }
    }

    /// The word that a word read of slot `address` gives: the slot's byte as
    /// the low byte, the next slot's byte as the high byte. The interrupt
    /// latch has no next slot and gives `None`; a slot that does not exist
    /// gives zero.
    pub open spec fn read_word(self, address: u16, draw: u8) -> Option<u16> {
        match address {
            PORT_B => Some(join(self.port_b, self.port_a)),
            PORT_A => Some(join(self.port_a, self.keyb)),
            KEYBOARD => Some(join(self.keyb, self.mouse_x)),
            MOUSE_X => Some(join(self.mouse_x, self.mouse_y)),
            MOUSE_Y => Some(join(self.mouse_y, self.pointer_low)),
            POINTER_LOW => Some(join(self.pointer_low, self.pointer_mid)),
            POINTER_MID => Some(join(self.pointer_mid, self.pointer_high)),
            POINTER_HIGH => Some(join(self.pointer_high, self.cartridge_byte())),
            CARTRIDGE_DATA => Some(join(self.cartridge_byte(), draw)),
            RANDOM => Some(join(draw, 0)),
            INTERRUPT_ID => None,
            _ => Some(0),
        }
    }

    /// The bank after the word `value` is written to slot `address`: the low
    /// byte goes to the slot, the high byte to the next one. Behind the
    /// pointer's last slot the high byte goes to the interrupt latch. The
    /// cartridge data, the random source and slots that do not exist take
    /// nothing. Of a word written to the interrupt latch the bank takes the
    /// low byte only.
    pub open spec fn write_word(self, value: u16, address: u16) -> AdapterView {
        let low = low_byte(value);
        let high = high_byte(value);
        match address {
            PORT_B => AdapterView { port_b: low, port_a: high, ..self },
            PORT_A => AdapterView { port_a: low, keyb: high, ..self },
            KEYBOARD => AdapterView { keyb: low, mouse_x: high, ..self },
            MOUSE_X => AdapterView { mouse_x: low, mouse_y: high, ..self },
            MOUSE_Y => AdapterView { mouse_y: low, pointer_low: high, ..self },
            POINTER_LOW => AdapterView { pointer_low: low, pointer_mid: high, ..self },
            POINTER_MID => AdapterView { pointer_mid: low, pointer_high: high, ..self },
            POINTER_HIGH => AdapterView { pointer_high: low, interrupt_id: high, ..self },
            INTERRUPT_ID => AdapterView { interrupt_id: low, ..self },
            _ => self,
        }
    }
}

/// The register bank.
pub struct Adapter {
    pub port_a: u8,
    pub port_b: u8,
    pub keyb: u8,
    pub mouse_x: u8,
    pub mouse_y: u8,
    pub pointer_low: u8,
    pub pointer_mid: u8,
    pub pointer_high: u8,
    pub cartridge: Block<CARTRIDGE_SIZE>,
    pub interrupt_id: u8,
}

impl View for Adapter {
    type V = AdapterView;

    open spec fn view(&self) -> AdapterView {
        AdapterView {
            port_a: self.port_a,
            port_b: self.port_b,
            keyb: self.keyb,
            mouse_x: self.mouse_x,
            mouse_y: self.mouse_y,
            pointer_low: self.pointer_low,
            pointer_mid: self.pointer_mid,
            pointer_high: self.pointer_high,
            rom: self.cartridge@,
            interrupt_id: self.interrupt_id,
        }
    }
}

/// A fresh byte from the generator that `rand::thread_rng` keeps for the
/// thread, drawn by `rand::Rng::gen_range` over the half-open range from 0 to
/// 0xff. The contract claims what `gen_range` promises of a range that is not
/// empty: the value lies in the range, so the byte is below 0xff. Nothing
/// else is claimed of it, and two calls may differ. The generator takes its
/// seed from the operating system when a thread first uses it, and stops the
/// program if it gets none; no argument of this call has a part in that.
#[verifier::external_body]
fn random_byte() -> (byte: u8)
    ensures
        byte < RANDOM_LIMIT,
{
    rand::Rng::gen_range(&mut rand::thread_rng(), 0..RANDOM_LIMIT)
}

impl Adapter {
    /// A bank with every register zero and a cartridge image of zeros.
    pub fn new() -> (adapter: Adapter)
        ensures
            adapter@ == AdapterView::initial(),
    {
        let cartridge = Block::new(Vec::new());
        Adapter {
            port_a: 0,
            port_b: 0,
            keyb: 0,
            mouse_x: 0,
            mouse_y: 0,
            pointer_low: 0,
            pointer_mid: 0,
            pointer_high: 0,
            cartridge,
            interrupt_id: 0,
        }
    }

    /// Puts a cartridge in: the image is `image`, cut or filled with zeros to
    /// its full size. The registers stay as they are.
    pub fn load_cartridge(&mut self, image: Vec<u8>)
        ensures
            final(self)@ == (AdapterView {
                rom: padded(image@, MAX_ROM_SIZE as nat),
                ..old(self)@
            }),
    {
        self.cartridge = Block::new(image);
    }

    /// The 24-bit cartridge pointer.
    pub fn rom_ptr(&self) -> (pointer: u32)
        ensures
            pointer == self@.rom_ptr(),
            pointer < MAX_ROM_SIZE,
    {
        let low: u32 = self.pointer_low as u32;
        let mid: u32 = self.pointer_mid as u32;
        let high: u32 = self.pointer_high as u32;
        low + 256 * mid + 65536 * high
    }

    /// The byte of the cartridge image under the pointer.
    fn cartridge_byte(&self) -> (byte: u8)
        ensures
            byte == self@.cartridge_byte(),
    {
        let pointer = self.rom_ptr();
        self.cartridge.get(pointer as usize)
    }

    /// Writes `value` to slot `address`.
    pub fn write_byte(&mut self, value: u8, address: u16)
        requires
            address != CARTRIDGE_DATA,
        ensures
            final(self)@ == old(self)@.write_byte(value, address),
    {
        match address {
            PORT_B => self.port_b = value,
            PORT_A => self.port_a = value,
            KEYBOARD => self.keyb = value,
            MOUSE_X => self.mouse_x = value,
            MOUSE_Y => self.mouse_y = value,
            POINTER_LOW => self.pointer_low = value,
            POINTER_MID => self.pointer_mid = value,
            POINTER_HIGH => self.pointer_high = value,
            INTERRUPT_ID => self.interrupt_id = value,
            _ => {},
        }
    }

    /// Reads slot `address`. The random source gives a fresh byte on every
    /// read.
    pub fn read_byte(&self, address: u16) -> (byte: u8)
        ensures
            exists|draw: u8| draw < RANDOM_LIMIT && byte == self@.read_byte(address, draw),
    {
        let byte = match address {
            PORT_B => self.port_b,
            PORT_A => self.port_a,
            KEYBOARD => self.keyb,
            MOUSE_X => self.mouse_x,
            MOUSE_Y => self.mouse_y,
            POINTER_LOW => self.pointer_low,
            POINTER_MID => self.pointer_mid,
            POINTER_HIGH => self.pointer_high,
            CARTRIDGE_DATA => self.cartridge_byte(),
            RANDOM => random_byte(),
            INTERRUPT_ID => self.interrupt_id,
            _ => 0,
        };
        proof {
            let draw = if address == RANDOM { byte } else { 0u8 };
            assert(byte == self@.read_byte(address, draw));
        }
        byte
    }

    /// Writes the word `value` to slot `address`. Returns whether the high
    /// byte is left for the caller to store behind the bank, which is so for
    /// the interrupt latch only.
    pub fn write_word(&mut self, value: u16, address: u16) -> (split: bool)
        ensures
            final(self)@ == old(self)@.write_word(value, address),
            split == (address == INTERRUPT_ID),
    {
        let low = low_byte(value);
        let high = high_byte(value);
        match address {
            PORT_B => {
                self.port_b = low;
                self.port_a = high;
            },
            PORT_A => {
                self.port_a = low;
                self.keyb = high;
            },
            KEYBOARD => {
                self.keyb = low;
                self.mouse_x = high;
            },
            MOUSE_X => {
                self.mouse_x = low;
                self.mouse_y = high;
            },
            MOUSE_Y => {
                self.mouse_y = low;
                self.pointer_low = high;
            },
            POINTER_LOW => {
                self.pointer_low = low;
                self.pointer_mid = high;
            },
            POINTER_MID => {
                self.pointer_mid = low;
                self.pointer_high = high;
            },
            POINTER_HIGH => {
                self.pointer_high = low;
                self.interrupt_id = high;
            },
            INTERRUPT_ID => {
                self.interrupt_id = low;
                return true;
            },
            _ => {},
        }
        false
    }

    /// Reads a word at slot `address`, or `None` at the interrupt latch,
    /// whose high byte lies behind the bank.
    pub fn read_word(&self, address: u16) -> (word: Option<u16>)
        ensures
            exists|draw: u8| draw < RANDOM_LIMIT && word == self@.read_word(address, draw),
    {
        let word = match address {
            PORT_B => Some(join(self.port_b, self.port_a)),
            PORT_A => Some(join(self.port_a, self.keyb)),
            KEYBOARD => Some(join(self.keyb, self.mouse_x)),
            MOUSE_X => Some(join(self.mouse_x, self.mouse_y)),
            MOUSE_Y => Some(join(self.mouse_y, self.pointer_low)),
            POINTER_LOW => Some(join(self.pointer_low, self.pointer_mid)),
            POINTER_MID => Some(join(self.pointer_mid, self.pointer_high)),
            POINTER_HIGH => Some(join(self.pointer_high, self.cartridge_byte())),
            CARTRIDGE_DATA => Some(join(self.cartridge_byte(), random_byte())),
            RANDOM => Some(join(random_byte(), 0)),
            INTERRUPT_ID => None,
            _ => Some(0),
        };
        proof {
            let draw = match word {
                Some(w) if address == CARTRIDGE_DATA => high_byte(w),
                Some(w) if address == RANDOM => low_byte(w),
                _ => 0u8,
            };
            assert(word == self@.read_word(address, draw));
        }
        word
    }
}

} // verus!
