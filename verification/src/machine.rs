//! The processor as mathematics: the registers and the bus as plain values,
//! and every operation of the instruction engine as a function from one
//! machine state to the next. With it come the few things that are computed
//! of a fetched instruction alone.

use crate::bytes::join;
use crate::interface_adapter::RANDOM_LIMIT;
use crate::mapper::{in_rom, BusView, CARTRIDGE_DATA_ADDRESS, RANDOM_ADDRESS};
use crate::opcodes::{instruction_of, Instruction, Mode, Operation};
use vstd::prelude::*;

verus! {

// The bits of the flags register.
pub const CARRY_FLAG: u8 = 1;
pub const ZERO_FLAG: u8 = 2;
pub const IRQ_DISABLE_FLAG: u8 = 4;
pub const DEC_MODE_FLAG: u8 = 8;
pub const BREAK_FLAG: u8 = 16;
pub const OVERFLOW_FLAG: u8 = 64;
pub const NEGATIVE_FLAG: u8 = 128;

/// The bits that are set in every copy of the flags on the stack.
pub const PUSHED_BITS: u8 = 0b0001_1000;

/// The bits that survive when the flags come back from the stack.
pub const PULLED_BITS: u8 = 0b1110_0111;

/// The flags after a reset.
pub const RESET_FLAGS: u8 = 0b0011_0100;

/// The stack pointer after a reset.
pub const SP_START_POS: u8 = 0xff;

// Where the entry points of the interrupt handlers and of the program lie.
pub const NMI_VECTOR: u16 = 0xfffa;
pub const RESET_VECTOR: u16 = 0xfffc;
pub const INTERRUPT_VECTOR: u16 = 0xfffe;

/// The first address of the page that holds the stack.
pub const STACK_PAGE: u16 = 0x100;

/// Whether one of the bits of `flag` is set in `flags`.
pub open spec fn flag_is_set(flags: u8, flag: u8) -> bool {
    flags & flag != 0
}

/// `flags` with the bits of `flag` set if `condition` holds, cleared if not.
pub open spec fn with_flag(flags: u8, condition: bool, flag: u8) -> u8 {
    if condition {
        flags | flag
    } else {
        flags & !flag
    }
}

/// Whether `value` is negative as a signed byte.
pub open spec fn is_negative(value: u8) -> bool {
    value >= 0x80
}

/// `flags` with Zero and Negative set from `value`.
pub open spec fn with_zero_negative(flags: u8, value: u8) -> u8 {
    with_flag(with_flag(flags, value == 0, ZERO_FLAG), is_negative(value), NEGATIVE_FLAG)
}

/// Where a branch with the operand byte `offset` leads: `offset` is a signed
/// distance from `next_pc`, the address after the branch instruction, and the
/// sum wraps at sixteen bits.
pub open spec fn spec_branch_target(next_pc: u16, offset: u8) -> u16 {
    if is_negative(offset) {
        next_pc.wrapping_sub((256 - offset) as u16)
    } else {
        next_pc.wrapping_add(offset as u16)
    }
}

/// Where a branch with the operand byte `offset` leads.
#[verifier::when_used_as_spec(spec_branch_target)]
pub fn branch_target(next_pc: u16, offset: u8) -> (target: u16)
    ensures
        target == spec_branch_target(next_pc, offset),
{
    if offset >= 0x80 {
        next_pc.wrapping_sub(256 - offset as u16)
    } else {
        next_pc.wrapping_add(offset as u16)
    }
}

/// The result of a shift or rotate of `operand`. All four move every bit one
/// place to the right. `Rol` then puts the old carry into bit 7, `Ror` into
/// bit 0; `Asl` and `Lsr` put in nothing.
pub open spec fn shifted(operation: Operation, operand: u8, carry: bool) -> u8 {
    match operation {
        Operation::Rol => (operand >> 1) | (if carry { 0x80u8 } else { 0u8 }),
        Operation::Ror => (operand >> 1) | (if carry { 1u8 } else { 0u8 }),
        _ => operand >> 1,
    }
}

/// The carry after a shift or rotate of `operand`: the bit that left at the
/// right.
pub open spec fn shifted_out(operand: u8) -> bool {
    operand & 1 != 0
}

/// The bytes that the random source hands out while one instruction is
/// fetched, one for each read that may reach it. A read that does not reach
/// the random source leaves its byte unused.
pub struct Draws {
    /// For the read of the opcode.
    pub opcode: u8,
    /// For the read of the first operand byte.
    pub low: u8,
    /// For the read of the second operand byte.
    pub high: u8,
    /// For the read of the word that an indirect jump goes through.
    pub pointer: u8,
    /// For the read of the operand.
    pub operand: u8,
}

impl Draws {
    /// Every byte is one that the random source can give.
    pub open spec fn valid(self) -> bool {
        &&& self.opcode < RANDOM_LIMIT
        &&& self.low < RANDOM_LIMIT
        &&& self.high < RANDOM_LIMIT
        &&& self.pointer < RANDOM_LIMIT
        &&& self.operand < RANDOM_LIMIT
    }
}

/// An instruction as it was fetched: what to do, and what it was read with.
#[derive(Clone, Copy, Debug, PartialEq, Eq)]
pub struct Fetched {
    /// The byte at the program counter.
    pub opcode: u8,
    /// Its entry in the opcode table, or `None` for a byte that is no
    /// instruction.
    pub instruction: Option<Instruction>,
    /// The address after the instruction's last byte.
    pub next_pc: u16,
    /// The operand's address; for a jump, a call or a branch, where it leads.
    pub address: u16,
    /// The operand's value, for an operation that takes one.
    pub value: u8,
}

/// Something out of the ordinary that an instruction does without harm to
/// the machine, and that a host may want to tell its user.
#[derive(Clone, Copy, Debug, PartialEq, Eq, Structural)]
pub enum Anomaly {
    /// The byte at the program counter is no instruction; it is skipped.
    UnknownOpcode,
    /// The instruction stores into ROM; the store is dropped.
    RomWrite,
    /// The instruction stores into the random source; the store is dropped.
    RandomWrite,
    /// The instruction stores into a slot of the register bank that does
    /// not exist, or reads its operand from one; the store is dropped, the
    /// operand is zero.
    NoSuchSlot,
}

impl Fetched {
    /// Whether the instruction's operand lies in a slot of the register bank
    /// that does not exist, and the instruction reads or writes it there.
    pub open spec fn spec_misses_slot(&self) -> bool {
        match self.instruction {
            Some(instruction) => {
                &&& 0x600a <= self.address <= 0x600e
                &&& instruction.stores() || (instruction.operation.reads_operand()
                    && instruction.mode != Mode::Immediate && instruction.mode
                    != Mode::Accumulator)
            },
            None => false,
        }
    }

    /// Whether the instruction's operand lies in a slot of the register bank
    /// that does not exist, and the instruction reads or writes it there.
    #[verifier::when_used_as_spec(spec_misses_slot)]
    pub fn misses_slot(&self) -> (misses: bool)
        ensures
            misses == self.spec_misses_slot(),
    {
        match self.instruction {
            Some(instruction) => {
                0x600a <= self.address && self.address <= 0x600e && (instruction.stores() || (
                instruction.operation.reads_operand() && instruction.mode != Mode::Immediate
                    && instruction.mode != Mode::Accumulator))
            },
            None => false,
        }
    }

    /// What is out of the ordinary about the instruction, if anything. A
    /// store that is dropped counts before an operand that is missing.
    pub open spec fn spec_anomaly(&self) -> Option<Anomaly> {
        match self.instruction {
            None => Some(Anomaly::UnknownOpcode),
            Some(instruction) => if instruction.stores() && in_rom(self.address) {
                Some(Anomaly::RomWrite)
            } else if instruction.stores() && self.address == RANDOM_ADDRESS {
                Some(Anomaly::RandomWrite)
            } else if self.spec_misses_slot() {
                Some(Anomaly::NoSuchSlot)
            } else {
                None
            },
        }
    }

    /// What is out of the ordinary about the instruction, if anything.
    #[verifier::when_used_as_spec(spec_anomaly)]
    pub fn anomaly(&self) -> (anomaly: Option<Anomaly>)
        ensures
            anomaly == self.spec_anomaly(),
    {
        match self.instruction {
            None => Some(Anomaly::UnknownOpcode),
            Some(instruction) => if instruction.stores() && in_rom(self.address) {
                Some(Anomaly::RomWrite)
            } else if instruction.stores() && self.address == RANDOM_ADDRESS {
                Some(Anomaly::RandomWrite)
            } else if self.misses_slot() {
                Some(Anomaly::NoSuchSlot)
            } else {
                None
            },
        }
    }

    /// Whether executing the instruction would store a byte into the
    /// cartridge data slot, which must not be written.
    pub open spec fn spec_is_fatal(&self) -> bool {
        match self.instruction {
            Some(instruction) => instruction.stores() && self.address == CARTRIDGE_DATA_ADDRESS,
            None => false,
        }
    }

    /// Whether executing the instruction would store a byte into the
    /// cartridge data slot, which must not be written.
    #[verifier::when_used_as_spec(spec_is_fatal)]
    pub fn is_fatal(&self) -> (fatal: bool)
        ensures
            fatal == self.spec_is_fatal(),
    {
        match self.instruction {
            Some(instruction) => instruction.stores() && self.address == CARTRIDGE_DATA_ADDRESS,
            None => false,
        }
    }
}

/// The state of the whole machine: the registers of the processor, and the
/// bus with all that lies behind it.
pub struct Machine {
    pub pc: u16,
    pub sp: u8,
    pub a: u8,
    pub x: u8,
    pub y: u8,
    pub flags: u8,
    pub bus: BusView,
}

impl Machine {
    /// Whether one of the bits of `flag` is set.
    pub open spec fn get_flag(self, flag: u8) -> bool {
        flag_is_set(self.flags, flag)
    }

    /// The carry as a number.
    pub open spec fn carry(self) -> int {
        if self.get_flag(CARRY_FLAG) {
            1
        } else {
            0
        }
    }

    /// The machine with other flags.
    pub open spec fn with_flags(self, flags: u8) -> Machine {
        Machine { flags, ..self }
    }

    /// The machine after a reset: the program counter comes from the reset
    /// vector, the stack is empty, the registers are zero.
    pub open spec fn reset(self) -> Machine {
        Machine {
            pc: self.bus.read_word(RESET_VECTOR, 0),
            sp: SP_START_POS,
            a: 0,
            x: 0,
            y: 0,
            flags: RESET_FLAGS,
            ..self
        }
    }

    // The stack.
    /// The address that the stack pointer selects.
    pub open spec fn stack_address(self) -> u16 {
        (STACK_PAGE + self.sp) as u16
    }

    /// The machine after `value` is pushed: the stack pointer goes down by
    /// one, then the byte is written where it points.
    pub open spec fn push_byte(self, value: u8) -> Machine {
        let pushed = Machine { sp: self.sp.wrapping_sub(1), ..self };
        Machine { bus: pushed.bus.write_byte(value, pushed.stack_address()), ..pushed }
    }

    /// The machine after the word `value` is pushed: the stack pointer goes
    /// down by two, then the word is written where it points.
    pub open spec fn push_word(self, value: u16) -> Machine {
        let pushed = Machine { sp: self.sp.wrapping_sub(2), ..self };
        Machine { bus: pushed.bus.write_word(value, pushed.stack_address()), ..pushed }
    }

    /// The byte on top of the stack.
    pub open spec fn top_byte(self) -> u8 {
        self.bus.read_byte(self.stack_address(), 0)
    }

    /// The word on top of the stack.
    pub open spec fn top_word(self) -> u16 {
        self.bus.read_word(self.stack_address(), 0)
    }

    /// The machine after a byte is taken off the stack.
    pub open spec fn drop_byte(self) -> Machine {
        Machine { sp: self.sp.wrapping_add(1), ..self }
    }

    /// The machine after a word is taken off the stack.
    pub open spec fn drop_word(self) -> Machine {
        Machine { sp: self.sp.wrapping_add(2), ..self }
    }

    /// The machine after the flags are pushed. The copy on the stack has
    /// bits 3 and 4 set, whatever the register holds.
    pub open spec fn push_flags(self) -> Machine {
        self.push_byte(self.flags | PUSHED_BITS)
    }

    /// The machine after the flags are pulled. Bits 3 and 4 of the register
    /// are then clear, whatever the stack held.
    pub open spec fn pop_flags(self) -> Machine {
        Machine { flags: self.top_byte() & PULLED_BITS, ..self.drop_byte() }
    }

    // Interrupts.
    /// The machine after the program counter and the flags are pushed and
    /// the program counter is loaded from `vector`.
    pub open spec fn enter_handler(self, return_to: u16, vector: u16) -> Machine {
        let pushed = self.push_word(return_to).push_flags();
        Machine { pc: pushed.bus.read_word(vector, 0), ..pushed }
    }

    /// The machine after a maskable interrupt is requested. With interrupts
    /// disabled nothing happens.
    pub open spec fn interrupt_request(self) -> Machine {
        if self.get_flag(IRQ_DISABLE_FLAG) {
            self
        } else {
            let entered = self.enter_handler(self.pc, INTERRUPT_VECTOR);
            entered.with_flags(entered.flags | IRQ_DISABLE_FLAG)
        }
    }

    /// The machine after a non-maskable interrupt.
    pub open spec fn non_maskable_interrupt(self) -> Machine {
        self.enter_handler(self.pc, NMI_VECTOR)
    }

    // Arithmetic and logic.
    /// The machine with `value` in the accumulator and Zero and Negative
    /// set from it.
    pub open spec fn with_a(self, value: u8) -> Machine {
        Machine { a: value, flags: with_zero_negative(self.flags, value), ..self }
    }

    /// The machine with `value` in X and Zero and Negative set from it.
    pub open spec fn with_x(self, value: u8) -> Machine {
        Machine { x: value, flags: with_zero_negative(self.flags, value), ..self }
    }

    /// The machine with `value` in Y and Zero and Negative set from it.
    pub open spec fn with_y(self, value: u8) -> Machine {
        Machine { y: value, flags: with_zero_negative(self.flags, value), ..self }
    }

    /// The machine after `operand` and the carry are added to the
    /// accumulator. Carry is set when the sum does not fit in a byte,
    /// Overflow when accumulator and operand have one sign and the result the
    /// other. Decimal mode is never applied.
    pub open spec fn adc(self, operand: u8) -> Machine {
        let sum = self.a + operand + self.carry();
        let result = (sum % 256) as u8;
        let overflow = is_negative(self.a) == is_negative(operand) && is_negative(result)
            != is_negative(operand);
        let flags = with_flag(
            with_flag(with_zero_negative(self.flags, result), sum > 0xff, CARRY_FLAG),
            overflow,
            OVERFLOW_FLAG,
        );
        Machine { a: result, flags, ..self }
    }

    /// The machine after `operand` is subtracted from the accumulator: the
    /// addition of the operand's complement.
    pub open spec fn sbc(self, operand: u8) -> Machine {
        self.adc((255 - operand) as u8)
    }

    /// The machine after `register` is compared with `operand`: Zero and
    /// Negative are set from the difference, Carry when `register` is not
    /// below `operand`.
    pub open spec fn compare(self, register: u8, operand: u8) -> Machine {
        self.with_flags(
            with_flag(
                with_zero_negative(self.flags, register.wrapping_sub(operand)),
                register >= operand,
                CARRY_FLAG,
            ),
        )
    }

    /// The flags after a value is counted up or down to `after`: Zero and
    /// Negative are set from `after`, Carry if the count wrapped around.
    pub open spec fn counted(self, after: u8, wrapped: bool) -> u8 {
        with_flag(with_zero_negative(self.flags, after), wrapped, CARRY_FLAG)
    }

    /// The flags after the accumulator is tested against `operand`: Zero is
    /// set when they share no bit, Overflow and Negative are bits 6 and 7 of
    /// the operand.
    pub open spec fn bit_tested(self, operand: u8) -> u8 {
        with_flag(
            with_flag(
                with_flag(self.flags, self.a & operand == 0, ZERO_FLAG),
                operand & OVERFLOW_FLAG != 0,
                OVERFLOW_FLAG,
            ),
            operand & NEGATIVE_FLAG != 0,
            NEGATIVE_FLAG,
        )
    }

    /// The flags after a shift or rotate of `operand` gave `result`.
    pub open spec fn shift_flags(self, operand: u8, result: u8) -> u8 {
        with_zero_negative(with_flag(self.flags, shifted_out(operand), CARRY_FLAG), result)
    }

    // Fetching.
    /// The address of the operand of an instruction at the program counter
    /// with addressing mode `mode` and operand bytes `low` and `high`; for a
    /// jump or a branch, its target. `draw` is what the random source hands
    /// out, should the word of an indirect jump be read from it.
    pub open spec fn operand_address(self, mode: Mode, low: u8, high: u8, draw: u8) -> u16 {
        match mode {
            Mode::Implied | Mode::Accumulator => 0,
            Mode::Immediate => self.pc.wrapping_add(1),
            Mode::ZeroPage => low as u16,
            Mode::ZeroPageX => low.wrapping_add(self.x) as u16,
            Mode::ZeroPageY => low.wrapping_add(self.y) as u16,
            Mode::Absolute => join(low, high),
            Mode::AbsoluteX => join(low, high).wrapping_add(self.x as u16),
            Mode::AbsoluteY => join(low, high).wrapping_add(self.y as u16),
            Mode::Indirect => self.bus.read_word(join(low, high), draw),
            Mode::IndirectX => self.bus.read_word(low.wrapping_add(self.x) as u16, 0),
            Mode::IndirectY => self.bus.read_word(low as u16, 0).wrapping_add(self.y as u16),
            Mode::Relative => branch_target(self.pc.wrapping_add(2), low),
        }
    }

    /// The value of the operand of `instruction` at `address`, where the
    /// operation takes one.
    pub open spec fn operand_value(self, instruction: Instruction, low: u8, address: u16, draw: u8) -> u8 {
        if !instruction.operation.reads_operand() {
            0
        } else {
            match instruction.mode {
                Mode::Immediate => low,
                Mode::Accumulator => self.a,
                _ => self.bus.read_byte(address, draw),
            }
        }
    }

    /// Whether fetching the instruction at the program counter reads the
    /// random source: for the opcode, for an operand byte, for the word that
    /// an indirect jump goes through, or for the operand.
    pub open spec fn reads_random(self) -> bool {
        let opcode = self.bus.read_byte(self.pc, 0);
        self.pc == RANDOM_ADDRESS || match instruction_of(opcode) {
            None => false,
            Some(instruction) => {
                let count = instruction.mode.operand_bytes();
                let low = self.bus.read_byte(self.pc.wrapping_add(1), 0);
                let high = self.bus.read_byte(self.pc.wrapping_add(2), 0);
                let address = self.operand_address(instruction.mode, low, high, 0);
                ||| count >= 1 && self.pc.wrapping_add(1) == RANDOM_ADDRESS
                ||| count >= 2 && self.pc.wrapping_add(2) == RANDOM_ADDRESS
                ||| instruction.mode == Mode::Indirect && (join(low, high)
                    == CARTRIDGE_DATA_ADDRESS || join(low, high) == RANDOM_ADDRESS)
                ||| instruction.operation.reads_operand() && instruction.mode != Mode::Immediate
                    && instruction.mode != Mode::Accumulator && address == RANDOM_ADDRESS
            },
        }
    }

    /// The instruction at the program counter, read with the given draws of
    /// the random source. The opcode is read first, then as many operand
    /// bytes as the addressing mode has, then what the mode needs to find the
    /// operand, then the operand itself where the operation takes its value.
    pub open spec fn fetch(self, draws: Draws) -> Fetched {
        let opcode = self.bus.read_byte(self.pc, draws.opcode);
        match instruction_of(opcode) {
            None => Fetched {
                opcode,
                instruction: None,
                next_pc: self.pc.wrapping_add(1),
                address: 0,
                value: 0,
            },
            Some(instruction) => {
                let count = instruction.mode.operand_bytes();
                let low = if count >= 1 {
                    self.bus.read_byte(self.pc.wrapping_add(1), draws.low)
                } else {
                    0
                };
                let high = if count >= 2 {
                    self.bus.read_byte(self.pc.wrapping_add(2), draws.high)
                } else {
                    0
                };
                let address = self.operand_address(instruction.mode, low, high, draws.pointer);
                Fetched {
                    opcode,
                    instruction: Some(instruction),
                    next_pc: self.pc.wrapping_add((1 + count) as u16),
                    address,
                    value: self.operand_value(instruction, low, address, draws.operand),
                }
            },
        }
    }

    // Executing.
    /// The machine after `value` is stored at `address`.
    pub open spec fn store(self, value: u8, address: u16) -> Machine {
        Machine { bus: self.bus.write_byte(value, address), ..self }
    }

    /// The machine after the result of a shift or rotate is put back where
    /// the operand came from: into the accumulator or into memory.
    pub open spec fn put_back(self, mode: Mode, result: u8, address: u16) -> Machine {
        if mode == Mode::Accumulator {
            Machine { a: result, ..self }
        } else {
            self.store(result, address)
        }
    }

    /// The machine after a conditional branch to `target`.
    pub open spec fn branch(self, taken: bool, target: u16) -> Machine {
        if taken {
            Machine { pc: target, ..self }
        } else {
            self
        }
    }

    /// The machine after a software interrupt. With interrupts disabled
    /// nothing happens; else the address one byte behind the instruction is
    /// pushed, then the flags, the program counter is loaded from the
    /// interrupt vector, and IRQ-disable and Break are set.
    pub open spec fn software_interrupt(self) -> Machine {
        if self.get_flag(IRQ_DISABLE_FLAG) {
            self
        } else {
            let entered = self.enter_handler(self.pc.wrapping_add(1), INTERRUPT_VECTOR);
            entered.with_flags(entered.flags | (IRQ_DISABLE_FLAG | BREAK_FLAG))
        }
    }

    /// The machine after a return from an interrupt handler: the flags are
    /// pulled, then the program counter.
    pub open spec fn return_from_interrupt(self) -> Machine {
        let pulled = self.pop_flags();
        Machine { pc: pulled.top_word(), ..pulled.drop_word() }
    }

    /// The machine after `instruction` is performed on the operand that
    /// `fetched` holds. The program counter already points behind the
    /// instruction.
    ///
    /// Loads set Zero and Negative from the loaded value, but `Ldx` and `Ldy`
    /// with an immediate operand and `Pla` leave the flags alone. Counting up
    /// or down sets Carry when the value wraps around.
    pub open spec fn perform(self, instruction: Instruction, fetched: Fetched) -> Machine {
        let value = fetched.value;
        let address = fetched.address;
        match instruction.operation {
            Operation::Lda => self.with_a(value),
            Operation::Ldx => if instruction.mode == Mode::Immediate {
                Machine { x: value, ..self }
            } else {
                self.with_x(value)
            },
            Operation::Ldy => if instruction.mode == Mode::Immediate {
                Machine { y: value, ..self }
            } else {
                self.with_y(value)
            },
            Operation::Sta => self.store(self.a, address),
            Operation::Stx => self.store(self.x, address),
            Operation::Sty => self.store(self.y, address),
            Operation::Jmp => Machine { pc: address, ..self },
            Operation::Jsr => Machine { pc: address, ..self.push_word(self.pc) },
            Operation::Rts => Machine { pc: self.top_word(), ..self.drop_word() },
            Operation::Tsx => self.with_x(self.sp),
            Operation::Txs => Machine { sp: self.x, ..self },
            Operation::Tax => self.with_x(self.a),
            Operation::Tay => self.with_y(self.a),
            Operation::Txa => self.with_a(self.x),
            Operation::Tya => self.with_a(self.y),
            Operation::Inx => Machine {
                x: self.x.wrapping_add(1),
                flags: self.counted(self.x.wrapping_add(1), self.x == 0xff),
                ..self
            },
            Operation::Iny => Machine {
                y: self.y.wrapping_add(1),
                flags: self.counted(self.y.wrapping_add(1), self.y == 0xff),
                ..self
            },
            Operation::Dex => Machine {
                x: self.x.wrapping_sub(1),
                flags: self.counted(self.x.wrapping_sub(1), self.x == 0),
                ..self
            },
            Operation::Dey => Machine {
                y: self.y.wrapping_sub(1),
                flags: self.counted(self.y.wrapping_sub(1), self.y == 0),
                ..self
            },
            Operation::Inc => self.store(value.wrapping_add(1), address).with_flags(
                self.counted(value.wrapping_add(1), value == 0xff),
            ),
            Operation::Dec => self.store(value.wrapping_sub(1), address).with_flags(
                self.counted(value.wrapping_sub(1), value == 0),
            ),
            Operation::Pha => self.push_byte(self.a),
            Operation::Php => self.push_flags(),
            Operation::Pla => Machine { a: self.top_byte(), ..self.drop_byte() },
            Operation::Plp => self.pop_flags(),
            Operation::And => self.with_a(self.a & value),
            Operation::Eor => self.with_a(self.a ^ value),
            Operation::Ora => self.with_a(self.a | value),
            Operation::Bit => self.with_flags(self.bit_tested(value)),
            Operation::Beq => self.branch(self.get_flag(ZERO_FLAG), address),
            Operation::Bne => self.branch(!self.get_flag(ZERO_FLAG), address),
            Operation::Bcs => self.branch(self.get_flag(CARRY_FLAG), address),
            Operation::Bcc => self.branch(!self.get_flag(CARRY_FLAG), address),
            Operation::Bmi => self.branch(self.get_flag(NEGATIVE_FLAG), address),
            Operation::Bpl => self.branch(!self.get_flag(NEGATIVE_FLAG), address),
            Operation::Bvs => self.branch(self.get_flag(OVERFLOW_FLAG), address),
            Operation::Bvc => self.branch(!self.get_flag(OVERFLOW_FLAG), address),
            Operation::Clc => self.with_flags(with_flag(self.flags, false, CARRY_FLAG)),
            Operation::Sec => self.with_flags(with_flag(self.flags, true, CARRY_FLAG)),
            Operation::Cld => self.with_flags(with_flag(self.flags, false, DEC_MODE_FLAG)),
            Operation::Sed => self.with_flags(with_flag(self.flags, true, DEC_MODE_FLAG)),
            Operation::Cli => self.with_flags(with_flag(self.flags, false, IRQ_DISABLE_FLAG)),
            Operation::Sei => self.with_flags(with_flag(self.flags, true, IRQ_DISABLE_FLAG)),
            Operation::Clv => self.with_flags(with_flag(self.flags, false, OVERFLOW_FLAG)),
            Operation::Adc => self.adc(value),
            Operation::Sbc => self.sbc(value),
            Operation::Cmp => self.compare(self.a, value),
            Operation::Cpx => self.compare(self.x, value),
            Operation::Cpy => self.compare(self.y, value),
            Operation::Asl | Operation::Lsr | Operation::Rol | Operation::Ror => {
                let result = shifted(instruction.operation, value, self.get_flag(CARRY_FLAG));
                self.put_back(instruction.mode, result, address).with_flags(
                    self.shift_flags(value, result),
                )
            },
            Operation::Brk => self.software_interrupt(),
            Operation::Rti => self.return_from_interrupt(),
            Operation::Nop => self,
        }
    }

    /// The machine after `fetched` is executed. A byte that is no
    /// instruction is skipped: only the program counter moves.
    pub open spec fn execute(self, fetched: Fetched) -> Machine {
        let advanced = Machine { pc: fetched.next_pc, ..self };
        match fetched.instruction {
            None => advanced,
            Some(instruction) => advanced.perform(instruction, fetched),
        }
    }

    /// The machine after one instruction, fetched with the given draws of the
    /// random source.
    pub open spec fn step(self, draws: Draws) -> Machine {
        self.execute(self.fetch(draws))
    }

    /// One instruction fetched with the given draws of the random source, and
    /// executed unless it would store into the cartridge data slot: whether it
    /// was executed, and the machine after it.
    pub open spec fn try_step(self, draws: Draws) -> (bool, Machine) {
        if self.fetch(draws).is_fatal() {
            (false, self)
        } else {
            (true, self.step(draws))
        }
    }

    /// Whether the next instruction may store into the cartridge data slot,
    /// which must not be written.
    pub open spec fn may_be_fatal(self) -> bool {
        exists|draws: Draws| draws.valid() && #[trigger] self.fetch(draws).is_fatal()
    }
}

} // verus!
