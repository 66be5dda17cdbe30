//! The instruction engine: the registers of the processor, and the code that
//! fetches and executes one instruction at a time through the bus.

use crate::bytes::join;
use crate::interface_adapter::RANDOM_LIMIT;
use crate::machine::{
    branch_target,
    shifted,
    with_flag,
    with_zero_negative,
    Draws,
    Fetched,
    Machine,
    PULLED_BITS,
    PUSHED_BITS,
    RESET_FLAGS,
    STACK_PAGE,
};
use crate::mapper::{Mapper, CARTRIDGE_DATA_ADDRESS, RANDOM_ADDRESS};
use crate::opcodes::{decode, Instruction, Mode, Operation};
use vstd::prelude::*;

pub use crate::machine::{
    BREAK_FLAG,
    CARRY_FLAG,
    DEC_MODE_FLAG,
    INTERRUPT_VECTOR,
    IRQ_DISABLE_FLAG,
    NEGATIVE_FLAG,
    NMI_VECTOR,
    OVERFLOW_FLAG,
    RESET_VECTOR,
    SP_START_POS,
    ZERO_FLAG,
};

verus! {

/// The processor, with the bus it drives.
pub struct CPU {
    /// The address of the next opcode.
    pub pc: u16,
    /// The stack pointer: the low byte of an address in the stack page.
    pub sp: u8,
    pub a: u8,
    pub x: u8,
    pub y: u8,
    pub flags: u8,
    pub mapper: Mapper,
}

impl View for CPU {
    type V = Machine;

    open spec fn view(&self) -> Machine {
        Machine {
            pc: self.pc,
            sp: self.sp,
            a: self.a,
            x: self.x,
            y: self.y,
            flags: self.flags,
            bus: self.mapper@,
        }
    }
}

impl CPU {
    /// A processor on the bus `mapper`, with every register zero. It is not
    /// ready to run before it is reset.
    pub fn new(mapper: Mapper) -> (cpu: CPU)
        ensures
            cpu@ == (Machine { pc: 0, sp: 0, a: 0, x: 0, y: 0, flags: 0, bus: mapper@ }),
    {
        CPU { pc: 0, sp: 0, a: 0, x: 0, y: 0, flags: 0, mapper }
    }

    /// Reads a byte at an address where the random source cannot answer.
    fn read_fixed(&self, address: u16) -> (byte: u8)
        requires
            address != RANDOM_ADDRESS,
        ensures
            byte == self@.bus.read_byte(address, 0),
    {
        self.mapper.read_byte(address)
    }

    /// Reads a word at an address where the random source cannot answer.
    fn read_word_fixed(&self, address: u16) -> (word: u16)
        requires
            address != CARTRIDGE_DATA_ADDRESS,
            address != RANDOM_ADDRESS,
        ensures
            word == self@.bus.read_word(address, 0),
    {
        self.mapper.read_word(address)
    }

    /// Reads a byte and names the draw of the random source that it was read
    /// with.
    fn read(&self, address: u16) -> (read: (u8, Ghost<u8>))
        ensures
            read.1@ < RANDOM_LIMIT,
            read.0 == self@.bus.read_byte(address, read.1@),
    {
        let byte = self.mapper.read_byte(address);
        (
            byte,
            Ghost(
                choose|draw: u8|
                    draw < RANDOM_LIMIT && byte == self.mapper@.read_byte(address, draw),
            ),
        )
    }

    /// Reads a word and names the draw of the random source that it was read
    /// with.
    fn read_word(&self, address: u16) -> (read: (u16, Ghost<u8>))
        ensures
            read.1@ < RANDOM_LIMIT,
            read.0 == self@.bus.read_word(address, read.1@),
    {
        let word = self.mapper.read_word(address);
        (
            word,
            Ghost(
                choose|draw: u8|
                    draw < RANDOM_LIMIT && word == self.mapper@.read_word(address, draw),
            ),
        )
    }

    /// Puts the processor into the state in which it starts: the program
    /// counter comes from the reset vector, the stack is empty, A, X and Y
    /// are zero, and of the flags IRQ-disable, Break and bit 5 are set.
    pub fn reset(&mut self)
        ensures
            final(self)@ == old(self)@.reset(),
    {
        self.pc = self.read_word_fixed(RESET_VECTOR);
        self.sp = SP_START_POS;
        self.a = 0;
        self.x = 0;
        self.y = 0;
        self.flags = RESET_FLAGS;
    }

    fn set_flag_if(&mut self, cond: bool, flag: u8)
        ensures
            final(self)@ == old(self)@.with_flags(with_flag(old(self).flags, cond, flag)),
    {
        if cond {
            self.flags = self.flags | flag;
        } else {
            self.flags = self.flags & !flag;
        }
    }

    /// Whether one of the bits of `flag` is set in the flags register.
    pub fn get_flag(&self, flag: u8) -> (set: bool)
        ensures
            set == self@.get_flag(flag),
    {
        self.flags & flag != 0
    }

    fn update_flags_registers(&mut self, reg: u8)
        ensures
            final(self)@ == old(self)@.with_flags(with_zero_negative(old(self).flags, reg)),
    {
        self.set_flag_if(reg == 0, ZERO_FLAG);
        self.set_flag_if(reg >= 0x80, NEGATIVE_FLAG);
    }

    fn get_indirect_address_x(&self, low: u8) -> (address: u16)
        ensures
            address == self@.operand_address(Mode::IndirectX, low, 0, 0),
    {
        self.read_word_fixed(low.wrapping_add(self.x) as u16)
    }

    fn get_indirect_address_y(&self, low: u8) -> (address: u16)
        ensures
            address == self@.operand_address(Mode::IndirectY, low, 0, 0),
    {
        self.read_word_fixed(low as u16).wrapping_add(self.y as u16)
    }

    fn get_sp_addr(&self) -> (address: u16)
        ensures
            address == self@.stack_address(),
    {
        STACK_PAGE + self.sp as u16
    }

    fn push_byte(&mut self, value: u8)
        ensures
            final(self)@ == old(self)@.push_byte(value),
    {
        self.sp = self.sp.wrapping_sub(1);
        let address = self.get_sp_addr();
        self.mapper.write_byte(value, address);
    }

    fn push_word(&mut self, value: u16)
        ensures
            final(self)@ == old(self)@.push_word(value),
    {
        self.sp = self.sp.wrapping_sub(2);
        let address = self.get_sp_addr();
        self.mapper.write_word(value, address);
    }

    fn pop_byte(&mut self) -> (value: u8)
        ensures
            value == old(self)@.top_byte(),
            final(self)@ == old(self)@.drop_byte(),
    {
        let value = self.read_fixed(self.get_sp_addr());
        self.sp = self.sp.wrapping_add(1);
        value
    }

    fn pop_word(&mut self) -> (value: u16)
        ensures
            value == old(self)@.top_word(),
            final(self)@ == old(self)@.drop_word(),
    {
        let value = self.read_word_fixed(self.get_sp_addr());
        self.sp = self.sp.wrapping_add(2);
        value
    }

    fn adc(&mut self, op: u8)
        ensures
            final(self)@ == old(self)@.adc(op),
    {
        let carry: u16 = if self.get_flag(CARRY_FLAG) {
            1
        } else {
            0
        };
        let sum: u16 = op as u16 + self.a as u16 + carry;
        let result = (sum % 256) as u8;
        let sign_eq = (self.a >= 0x80) == (op >= 0x80);
        self.a = result;
        self.update_flags_registers(result);
        self.set_flag_if(sum > 0xff, CARRY_FLAG);
        self.set_flag_if(sign_eq && (result >= 0x80) != (op >= 0x80), OVERFLOW_FLAG);
    }

    fn sbc(&mut self, op: u8)
        ensures
            final(self)@ == old(self)@.sbc(op),
    {
        self.adc(255 - op);
    }

    fn shift_flags(&mut self, op: u8, result: u8)
        ensures
            final(self)@ == old(self)@.with_flags(old(self)@.shift_flags(op, result)),
    {
        self.set_flag_if(op & 1 != 0, CARRY_FLAG);
        self.update_flags_registers(result);
    }

    fn asl(&mut self, op: u8) -> (result: u8)
        ensures
            result == shifted(Operation::Asl, op, old(self)@.get_flag(CARRY_FLAG)),
            final(self)@ == old(self)@.with_flags(old(self)@.shift_flags(op, result)),
    {
        let result = op >> 1;
        self.shift_flags(op, result);
        result
    }

    fn lsr(&mut self, op: u8) -> (result: u8)
        ensures
            result == shifted(Operation::Lsr, op, old(self)@.get_flag(CARRY_FLAG)),
            final(self)@ == old(self)@.with_flags(old(self)@.shift_flags(op, result)),
    {
        let result = op >> 1;
        self.shift_flags(op, result);
        result
    }

    fn rol(&mut self, op: u8) -> (result: u8)
        ensures
            result == shifted(Operation::Rol, op, old(self)@.get_flag(CARRY_FLAG)),
            final(self)@ == old(self)@.with_flags(old(self)@.shift_flags(op, result)),
    {
        let carry: u8 = if self.get_flag(CARRY_FLAG) {
            0x80
        } else {
            0
        };
        let result = (op >> 1) | carry;
        self.shift_flags(op, result);
        result
    }

    fn ror(&mut self, op: u8) -> (result: u8)
        ensures
            result == shifted(Operation::Ror, op, old(self)@.get_flag(CARRY_FLAG)),
            final(self)@ == old(self)@.with_flags(old(self)@.shift_flags(op, result)),
    {
        let carry: u8 = if self.get_flag(CARRY_FLAG) {
            1
        } else {
            0
        };
        let result = (op >> 1) | carry;
        self.shift_flags(op, result);
        result
    }

    fn compare(&mut self, reg: u8, op: u8)
        ensures
            final(self)@ == old(self)@.compare(reg, op),
    {
        self.update_flags_registers(reg.wrapping_sub(op));
        self.set_flag_if(reg >= op, CARRY_FLAG);
    }

    fn push_flags(&mut self)
        ensures
            final(self)@ == old(self)@.push_flags(),
    {
        self.push_byte(self.flags | PUSHED_BITS);
    }

    fn pop_flags(&mut self)
        ensures
            final(self)@ == old(self)@.pop_flags(),
    {
        self.flags = self.pop_byte() & PULLED_BITS;
    }

    fn enter_handler(&mut self, return_to: u16, vector: u16)
        requires
            vector == NMI_VECTOR || vector == INTERRUPT_VECTOR,
        ensures
            final(self)@ == old(self)@.enter_handler(return_to, vector),
    {
        self.push_word(return_to);
        self.push_flags();
        self.pc = self.read_word_fixed(vector);
    }

    /// Delivers a maskable interrupt. If the IRQ-disable flag is clear, the
    /// program counter and then the flags are pushed, the program counter is
    /// loaded from the interrupt vector, and IRQ-disable is set. If it is set,
    /// the request is dropped.
    pub fn interrupt_request(&mut self)
        ensures
            final(self)@ == old(self)@.interrupt_request(),
    {
        if !self.get_flag(IRQ_DISABLE_FLAG) {
            self.enter_handler(self.pc, INTERRUPT_VECTOR);
            self.flags = self.flags | IRQ_DISABLE_FLAG;
        }
    }

    /// Delivers a non-maskable interrupt: the program counter and then the
    /// flags are pushed, and the program counter is loaded from the NMI
    /// vector, whatever the flags say.
    pub fn non_maskable_interrupt(&mut self)
        ensures
            final(self)@ == old(self)@.non_maskable_interrupt(),
    {
        self.enter_handler(self.pc, NMI_VECTOR);
    }

    /// Finds the operand's address, and names the draw of the random source
    /// that the word of an indirect jump was read with.
    fn operand_address(&self, mode: Mode, low: u8, high: u8) -> (found: (u16, Ghost<u8>))
        ensures
            found.1@ < RANDOM_LIMIT,
            found.0 == self@.operand_address(mode, low, high, found.1@),
    {
        match mode {
            Mode::Implied | Mode::Accumulator => (0, Ghost(0)),
            Mode::Immediate => (self.pc.wrapping_add(1), Ghost(0)),
            Mode::ZeroPage => (low as u16, Ghost(0)),
            Mode::ZeroPageX => (low.wrapping_add(self.x) as u16, Ghost(0)),
            Mode::ZeroPageY => (low.wrapping_add(self.y) as u16, Ghost(0)),
            Mode::Absolute => (join(low, high), Ghost(0)),
            Mode::AbsoluteX => (join(low, high).wrapping_add(self.x as u16), Ghost(0)),
            Mode::AbsoluteY => (join(low, high).wrapping_add(self.y as u16), Ghost(0)),
            Mode::Indirect => self.read_word(join(low, high)),
            Mode::IndirectX => (self.get_indirect_address_x(low), Ghost(0)),
            Mode::IndirectY => (self.get_indirect_address_y(low), Ghost(0)),
            Mode::Relative => (branch_target(self.pc.wrapping_add(2), low), Ghost(0)),
        }
    }

    /// Reads the operand's value where the operation takes one, and names
    /// the draw of the random source that it was read with.
    fn operand_value(&self, instruction: Instruction, low: u8, address: u16) -> (found: (
        u8,
        Ghost<u8>,
    ))
        ensures
            found.1@ < RANDOM_LIMIT,
            found.0 == self@.operand_value(instruction, low, address, found.1@),
    {
        if !instruction.operation.reads_operand() {
            (0, Ghost(0))
        } else {
            match instruction.mode {
                Mode::Immediate => (low, Ghost(0)),
                Mode::Accumulator => (self.a, Ghost(0)),
                _ => self.read(address),
            }
        }
    }

    /// Fetches the instruction at the program counter: reads the opcode and
    /// its operand bytes, finds the operand and, where the operation takes
    /// its value, reads it. Nothing changes; but every read that reaches the
    /// random source gets a fresh byte, so two fetches in the same state may
    /// differ.
    pub fn fetch(&self) -> (fetched: Fetched)
        ensures
            exists|draws: Draws| draws.valid() && fetched == self@.fetch(draws),
    {
        let (opcode, Ghost(opcode_draw)) = self.read(self.pc);
        match decode(opcode) {
            None => {
                let fetched = Fetched {
                    opcode,
                    instruction: None,
                    next_pc: self.pc.wrapping_add(1),
                    address: 0,
                    value: 0,
                };
                proof {
                    let draws = Draws { opcode: opcode_draw, low: 0, high: 0, pointer: 0, operand: 0 };
                    assert(draws.valid() && fetched == self@.fetch(draws));
                }
                fetched
            },
            Some(instruction) => {
                let count = instruction.mode.operand_bytes();
                let (low, Ghost(low_draw)) = if count >= 1 {
                    self.read(self.pc.wrapping_add(1))
                } else {
                    (0, Ghost(0))
                };
                let (high, Ghost(high_draw)) = if count >= 2 {
                    self.read(self.pc.wrapping_add(2))
                } else {
                    (0, Ghost(0))
                };
                let (address, Ghost(pointer_draw)) = self.operand_address(
                    instruction.mode,
                    low,
                    high,
                );
                let (value, Ghost(operand_draw)) = self.operand_value(instruction, low, address);
                let fetched = Fetched {
                    opcode,
                    instruction: Some(instruction),
                    next_pc: self.pc.wrapping_add(1 + count),
                    address,
                    value,
                };
                proof {
                    let draws = Draws {
                        opcode: opcode_draw,
                        low: low_draw,
                        high: high_draw,
                        pointer: pointer_draw,
                        operand: operand_draw,
                    };
                    assert(draws.valid() && fetched == self@.fetch(draws));
                }
                fetched
            },
        }
    }

    /// Stores `value` at `address`.
    fn store(&mut self, value: u8, address: u16)
        requires
            address != CARTRIDGE_DATA_ADDRESS,
        ensures
            final(self)@ == old(self)@.store(value, address),
    {
        self.mapper.write_byte(value, address);
    }

    /// Puts the result of a shift or rotate back where the operand came
    /// from.
    fn put_back(&mut self, mode: Mode, result: u8, address: u16)
        requires
            mode != Mode::Accumulator ==> address != CARTRIDGE_DATA_ADDRESS,
        ensures
            final(self)@ == old(self)@.put_back(mode, result, address),
    {
        if mode == Mode::Accumulator {
            self.a = result;
        } else {
            self.store(result, address);
        }
    }

    fn load_a(&mut self, value: u8)
        ensures
            final(self)@ == old(self)@.with_a(value),
    {
        self.a = value;
        self.update_flags_registers(value);
    }

    fn load_x(&mut self, value: u8)
        ensures
            final(self)@ == old(self)@.with_x(value),
    {
        self.x = value;
        self.update_flags_registers(value);
    }

    fn load_y(&mut self, value: u8)
        ensures
            final(self)@ == old(self)@.with_y(value),
    {
        self.y = value;
        self.update_flags_registers(value);
    }

    /// Sets the flags after a value was counted up or down to `after`.
    fn count_flags(&mut self, after: u8, wrapped: bool)
        ensures
            final(self)@ == old(self)@.with_flags(old(self)@.counted(after, wrapped)),
    {
        self.update_flags_registers(after);
        self.set_flag_if(wrapped, CARRY_FLAG);
    }

    fn bit_test(&mut self, value: u8)
        ensures
            final(self)@ == old(self)@.with_flags(old(self)@.bit_tested(value)),
    {
        self.set_flag_if(self.a & value == 0, ZERO_FLAG);
        self.set_flag_if(value & OVERFLOW_FLAG != 0, OVERFLOW_FLAG);
        self.set_flag_if(value & NEGATIVE_FLAG != 0, NEGATIVE_FLAG);
    }

    fn branch(&mut self, taken: bool, target: u16)
        ensures
            final(self)@ == old(self)@.branch(taken, target),
    {
        if taken {
            self.pc = target;
        }
    }

    fn software_interrupt(&mut self)
        ensures
            final(self)@ == old(self)@.software_interrupt(),
    {
        if !self.get_flag(IRQ_DISABLE_FLAG) {
            self.enter_handler(self.pc.wrapping_add(1), INTERRUPT_VECTOR);
            self.flags = self.flags | (IRQ_DISABLE_FLAG | BREAK_FLAG);
        }
    }

    fn return_from_interrupt(&mut self)
        ensures
            final(self)@ == old(self)@.return_from_interrupt(),
    {
        self.pop_flags();
        self.pc = self.pop_word();
    }

    /// Performs `instruction` on the operand that `fetched` holds.
    fn perform(&mut self, instruction: Instruction, fetched: Fetched)
        requires
            instruction.stores() ==> fetched.address != CARTRIDGE_DATA_ADDRESS,
        ensures
            final(self)@ == old(self)@.perform(instruction, fetched),
    {
        let value = fetched.value;
        let address = fetched.address;
        match instruction.operation {
            Operation::Lda => self.load_a(value),
            Operation::Ldx => {
                if instruction.mode == Mode::Immediate {
                    self.x = value;
                } else {
                    self.load_x(value);
                }
            },
            Operation::Ldy => {
                if instruction.mode == Mode::Immediate {
                    self.y = value;
                } else {
                    self.load_y(value);
                }
            },
            Operation::Sta => self.store(self.a, address),
            Operation::Stx => self.store(self.x, address),
            Operation::Sty => self.store(self.y, address),
            Operation::Jmp => self.pc = address,
            Operation::Jsr => {
                self.push_word(self.pc);
                self.pc = address;
            },
            Operation::Rts => self.pc = self.pop_word(),
            Operation::Tsx => self.load_x(self.sp),
            Operation::Txs => self.sp = self.x,
            Operation::Tax => self.load_x(self.a),
            Operation::Tay => self.load_y(self.a),
            Operation::Txa => self.load_a(self.x),
            Operation::Tya => self.load_a(self.y),
            Operation::Inx => {
                let wrapped = self.x == 0xff;
                self.x = self.x.wrapping_add(1);
                self.count_flags(self.x, wrapped);
            },
            Operation::Iny => {
                let wrapped = self.y == 0xff;
                self.y = self.y.wrapping_add(1);
                self.count_flags(self.y, wrapped);
            },
            Operation::Dex => {
                let wrapped = self.x == 0;
                self.x = self.x.wrapping_sub(1);
                self.count_flags(self.x, wrapped);
            },
            Operation::Dey => {
                let wrapped = self.y == 0;
                self.y = self.y.wrapping_sub(1);
                self.count_flags(self.y, wrapped);
            },
            Operation::Inc => {
                let result = value.wrapping_add(1);
                self.store(result, address);
                self.count_flags(result, value == 0xff);
            },
            Operation::Dec => {
                let result = value.wrapping_sub(1);
                self.store(result, address);
                self.count_flags(result, value == 0);
            },
            Operation::Pha => self.push_byte(self.a),
            Operation::Php => self.push_flags(),
            Operation::Pla => self.a = self.pop_byte(),
            Operation::Plp => self.pop_flags(),
            Operation::And => self.load_a(self.a & value),
            Operation::Eor => self.load_a(self.a ^ value),
            Operation::Ora => self.load_a(self.a | value),
            Operation::Bit => self.bit_test(value),
            Operation::Beq => self.branch(self.get_flag(ZERO_FLAG), address),
            Operation::Bne => self.branch(!self.get_flag(ZERO_FLAG), address),
            Operation::Bcs => self.branch(self.get_flag(CARRY_FLAG), address),
            Operation::Bcc => self.branch(!self.get_flag(CARRY_FLAG), address),
            Operation::Bmi => self.branch(self.get_flag(NEGATIVE_FLAG), address),
            Operation::Bpl => self.branch(!self.get_flag(NEGATIVE_FLAG), address),
            Operation::Bvs => self.branch(self.get_flag(OVERFLOW_FLAG), address),
            Operation::Bvc => self.branch(!self.get_flag(OVERFLOW_FLAG), address),
            Operation::Clc => self.set_flag_if(false, CARRY_FLAG),
            Operation::Sec => self.set_flag_if(true, CARRY_FLAG),
            Operation::Cld => self.set_flag_if(false, DEC_MODE_FLAG),
            Operation::Sed => self.set_flag_if(true, DEC_MODE_FLAG),
            Operation::Cli => self.set_flag_if(false, IRQ_DISABLE_FLAG),
            Operation::Sei => self.set_flag_if(true, IRQ_DISABLE_FLAG),
            Operation::Clv => self.set_flag_if(false, OVERFLOW_FLAG),
            Operation::Adc => self.adc(value),
            Operation::Sbc => self.sbc(value),
            Operation::Cmp => self.compare(self.a, value),
            Operation::Cpx => self.compare(self.x, value),
            Operation::Cpy => self.compare(self.y, value),
            Operation::Asl => {
                let result = self.asl(value);
                self.put_back(instruction.mode, result, address);
            },
            Operation::Lsr => {
                let result = self.lsr(value);
                self.put_back(instruction.mode, result, address);
            },
            Operation::Rol => {
                let result = self.rol(value);
                self.put_back(instruction.mode, result, address);
            },
            Operation::Ror => {
                let result = self.ror(value);
                self.put_back(instruction.mode, result, address);
            },
            Operation::Brk => self.software_interrupt(),
            Operation::Rti => self.return_from_interrupt(),
            Operation::Nop => {},
        }
    }

    /// Executes a fetched instruction: moves the program counter behind it
    /// and performs its operation. A byte that is no instruction is skipped.
    ///
    /// An instruction that would store into the cartridge data slot must not
    /// be executed: `fetched.is_fatal()` tells.
    pub fn execute(&mut self, fetched: Fetched)
        requires
            !fetched.is_fatal(),
        ensures
            final(self)@ == old(self)@.execute(fetched),
    {
        self.pc = fetched.next_pc;
        match fetched.instruction {
            None => {},
            Some(instruction) => self.perform(instruction, fetched),
        }
    }

    /// Fetches and executes one instruction.
    ///
    /// The caller must know that the instruction cannot store into the
    /// cartridge data slot; `try_tick` is for a caller who does not.
    pub fn tick(&mut self)
        requires
            !old(self)@.may_be_fatal(),
        ensures
            exists|draws: Draws| draws.valid() && final(self)@ == old(self)@.step(draws),
    {
        let fetched = self.fetch();
        proof {
            let draws = choose|draws: Draws| draws.valid() && fetched == self@.fetch(draws);
            assert(self@.fetch(draws).is_fatal() == fetched.is_fatal());
        }
        self.execute(fetched);
        proof {
            let draws = choose|draws: Draws| draws.valid() && fetched == old(self)@.fetch(draws);
            assert(self@ == old(self)@.step(draws));
        }
    }

    /// Fetches one instruction, and executes it unless it would store into
    /// the cartridge data slot. Returns whether it was executed; if not,
    /// nothing has changed.
    pub fn try_tick(&mut self) -> (done: bool)
        ensures
            exists|draws: Draws|
                draws.valid() && (done, final(self)@) == old(self)@.try_step(draws),
    {
        let fetched = self.fetch();
        let ghost draws = choose|draws: Draws| draws.valid() && fetched == self@.fetch(draws);
        if fetched.is_fatal() {
            assert((false, self@) == old(self)@.try_step(draws));
            false
        } else {
            self.execute(fetched);
            assert((true, self@) == old(self)@.try_step(draws));
            true
        }
    }
}

} // verus!
