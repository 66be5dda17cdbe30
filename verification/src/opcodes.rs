//! The opcode table: the byte value of every instruction the machine knows,
//! and the operation and addressing mode each byte stands for.

use vstd::prelude::*;

verus! {

// Loads.
pub const LDA_IMMEDIATE: u8 = 0xa9;
pub const LDA_ZERO_PAGE: u8 = 0xa5;
pub const LDA_ZERO_PAGE_X: u8 = 0xb5;
pub const LDA_ABSOLUTE: u8 = 0xad;
pub const LDA_ABSOLUTE_X: u8 = 0xbd;
pub const LDA_ABSOLUTE_Y: u8 = 0xb9;
pub const LDA_INDIRECT_X: u8 = 0xa1;
pub const LDA_INDIRECT_Y: u8 = 0xb1;
pub const LDX_IMMEDIATE: u8 = 0xa2;
pub const LDX_ZERO_PAGE: u8 = 0xa6;
pub const LDX_ZERO_PAGE_Y: u8 = 0xb6;
pub const LDX_ABSOLUTE: u8 = 0xae;
pub const LDX_ABSOLUTE_Y: u8 = 0xbe;
pub const LDY_IMMEDIATE: u8 = 0xa0;
pub const LDY_ZERO_PAGE: u8 = 0xa4;
pub const LDY_ZERO_PAGE_X: u8 = 0xb4;
pub const LDY_ABSOLUTE: u8 = 0xac;
pub const LDY_ABSOLUTE_X: u8 = 0xbc;

// Stores.
pub const STA_ZERO_PAGE: u8 = 0x85;
pub const STA_ZERO_PAGE_X: u8 = 0x95;
pub const STA_ABSOLUTE: u8 = 0x8d;
pub const STA_ABSOLUTE_X: u8 = 0x9d;
pub const STA_ABSOLUTE_Y: u8 = 0x99;
pub const STA_INDIRECT_X: u8 = 0x81;
pub const STA_INDIRECT_Y: u8 = 0x91;
pub const STX_ZERO_PAGE: u8 = 0x86;
pub const STX_ZERO_PAGE_Y: u8 = 0x96;
pub const STX_ABSOLUTE: u8 = 0x8e;
pub const STY_ZERO_PAGE: u8 = 0x84;
pub const STY_ZERO_PAGE_X: u8 = 0x94;
pub const STY_ABSOLUTE: u8 = 0x8c;

// Jumps and subroutines.
pub const JMP_ABSOLUTE: u8 = 0x4c;
pub const JMP_INDIRECT: u8 = 0x6c;
pub const JSR: u8 = 0x20;
pub const RTS: u8 = 0x60;

// Register transfers.
pub const TSX: u8 = 0xba;
pub const TXS: u8 = 0x9a;
pub const TAX: u8 = 0xaa;
pub const TAY: u8 = 0xa8;
pub const TXA: u8 = 0x8a;
pub const TYA: u8 = 0x98;

// Increments and decrements.
pub const INX: u8 = 0xe8;
pub const INY: u8 = 0xc8;
pub const DEX: u8 = 0xca;
pub const DEY: u8 = 0x88;
pub const INC_ZERO_PAGE: u8 = 0xe6;
pub const INC_ZERO_PAGE_X: u8 = 0xf6;
pub const INC_ABSOLUTE: u8 = 0xee;
pub const INC_ABSOLUTE_X: u8 = 0xfe;
pub const DEC_ZERO_PAGE: u8 = 0xc6;
pub const DEC_ZERO_PAGE_X: u8 = 0xd6;
pub const DEC_ABSOLUTE: u8 = 0xce;
pub const DEC_ABSOLUTE_X: u8 = 0xde;

// Stack.
pub const PHA: u8 = 0x48;
pub const PHP: u8 = 0x08;
pub const PLA: u8 = 0x68;
pub const PLP: u8 = 0x28;

// Logic.
pub const AND_IMMEDIATE: u8 = 0x29;
pub const AND_ZERO_PAGE: u8 = 0x25;
pub const AND_ZERO_PAGE_X: u8 = 0x35;
pub const AND_ABSOLUTE: u8 = 0x2d;
pub const AND_ABSOLUTE_X: u8 = 0x3d;
pub const AND_ABSOLUTE_Y: u8 = 0x39;
pub const AND_INDIRECT_X: u8 = 0x21;
pub const AND_INDIRECT_Y: u8 = 0x31;
pub const EOR_IMMEDIATE: u8 = 0x49;
pub const EOR_ZERO_PAGE: u8 = 0x45;
pub const EOR_ZERO_PAGE_X: u8 = 0x55;
pub const EOR_ABSOLUTE: u8 = 0x4d;
pub const EOR_ABSOLUTE_X: u8 = 0x5d;
pub const EOR_ABSOLUTE_Y: u8 = 0x59;
pub const EOR_INDIRECT_X: u8 = 0x41;
pub const EOR_INDIRECT_Y: u8 = 0x51;
pub const ORA_IMMEDIATE: u8 = 0x09;
pub const ORA_ZERO_PAGE: u8 = 0x05;
pub const ORA_ZERO_PAGE_X: u8 = 0x15;
pub const ORA_ABSOLUTE: u8 = 0x0d;
pub const ORA_ABSOLUTE_X: u8 = 0x1d;
pub const ORA_ABSOLUTE_Y: u8 = 0x19;
pub const ORA_INDIRECT_X: u8 = 0x01;
pub const ORA_INDIRECT_Y: u8 = 0x11;
pub const BIT_ZERO_PAGE: u8 = 0x24;
pub const BIT_ABSOLUTE: u8 = 0x2c;

// Branches.
pub const BEQ: u8 = 0xf0;
pub const BNE: u8 = 0xd0;
pub const BCS: u8 = 0xb0;
pub const BCC: u8 = 0x90;
pub const BMI: u8 = 0x30;
pub const BPL: u8 = 0x10;
pub const BVC: u8 = 0x50;
pub const BVS: u8 = 0x70;

// Flag set and clear.
pub const CLC: u8 = 0x18;
pub const SEC: u8 = 0x38;
pub const CLD: u8 = 0xd8;
pub const SED: u8 = 0xf8;
pub const CLI: u8 = 0x58;
pub const SEI: u8 = 0x78;
pub const CLV: u8 = 0xb8;

// Arithmetic and comparison.
pub const ADC_IMMEDIATE: u8 = 0x69;
pub const ADC_ZERO_PAGE: u8 = 0x65;
pub const ADC_ZERO_PAGE_X: u8 = 0x75;
pub const ADC_ABSOLUTE: u8 = 0x6d;
pub const ADC_ABSOLUTE_X: u8 = 0x7d;
pub const ADC_ABSOLUTE_Y: u8 = 0x79;
pub const ADC_INDIRECT_X: u8 = 0x61;
pub const ADC_INDIRECT_Y: u8 = 0x71;
pub const SBC_IMMEDIATE: u8 = 0xe9;
pub const SBC_ZERO_PAGE: u8 = 0xe5;
pub const SBC_ZERO_PAGE_X: u8 = 0xf5;
pub const SBC_ABSOLUTE: u8 = 0xed;
pub const SBC_ABSOLUTE_X: u8 = 0xfd;
pub const SBC_ABSOLUTE_Y: u8 = 0xf9;
pub const SBC_INDIRECT_X: u8 = 0xe1;
pub const SBC_INDIRECT_Y: u8 = 0xf1;
pub const CMP_IMMEDIATE: u8 = 0xc9;
pub const CMP_ZERO_PAGE: u8 = 0xc5;
pub const CMP_ZERO_PAGE_X: u8 = 0xd5;
pub const CMP_ABSOLUTE: u8 = 0xcd;
pub const CMP_ABSOLUTE_X: u8 = 0xdd;
pub const CMP_ABSOLUTE_Y: u8 = 0xd9;
pub const CMP_INDIRECT_X: u8 = 0xc1;
pub const CMP_INDIRECT_Y: u8 = 0xd1;
pub const CPX_IMMEDIATE: u8 = 0xe0;
pub const CPX_ZERO_PAGE: u8 = 0xe4;
pub const CPX_ABSOLUTE: u8 = 0xec;
pub const CPY_IMMEDIATE: u8 = 0xc0;
pub const CPY_ZERO_PAGE: u8 = 0xc4;
pub const CPY_ABSOLUTE: u8 = 0xcc;

// Shifts and rotates.
pub const ASL_ACCUMULATOR: u8 = 0x0a;
pub const ASL_ZERO_PAGE: u8 = 0x06;
pub const ASL_ZERO_PAGE_X: u8 = 0x16;
pub const ASL_ABSOLUTE: u8 = 0x0e;
pub const ASL_ABSOLUTE_X: u8 = 0x1e;
pub const LSR_ACCUMULATOR: u8 = 0x4a;
pub const LSR_ZERO_PAGE: u8 = 0x46;
pub const LSR_ZERO_PAGE_X: u8 = 0x56;
pub const LSR_ABSOLUTE: u8 = 0x4e;
pub const LSR_ABSOLUTE_X: u8 = 0x5e;
pub const ROL_ACCUMULATOR: u8 = 0x2a;
pub const ROL_ZERO_PAGE: u8 = 0x26;
pub const ROL_ZERO_PAGE_X: u8 = 0x36;
pub const ROL_ABSOLUTE: u8 = 0x2e;
pub const ROL_ABSOLUTE_X: u8 = 0x3e;
pub const ROR_ACCUMULATOR: u8 = 0x6a;
pub const ROR_ZERO_PAGE: u8 = 0x66;
pub const ROR_ZERO_PAGE_X: u8 = 0x76;
pub const ROR_ABSOLUTE: u8 = 0x6e;
pub const ROR_ABSOLUTE_X: u8 = 0x7e;

// Software interrupt, return from interrupt, no operation.
pub const BRK: u8 = 0x00;
pub const RTI: u8 = 0x40;
pub const NOP: u8 = 0xea;

/// How an instruction finds its operand.
#[derive(Clone, Copy, Debug, PartialEq, Eq, Structural)]
pub enum Mode {
    /// No operand.
    Implied,
    /// The operand is the accumulator.
    Accumulator,
    /// The operand is the byte after the opcode.
    Immediate,
    /// The byte after the opcode is an address in page zero.
    ZeroPage,
    /// As `ZeroPage`, with X added inside page zero.
    ZeroPageX,
    /// As `ZeroPage`, with Y added inside page zero.
    ZeroPageY,
    /// The two bytes after the opcode are a little-endian address.
    Absolute,
    /// As `Absolute`, with X added.
    AbsoluteX,
    /// As `Absolute`, with Y added.
    AbsoluteY,
    /// The two bytes after the opcode point at the word that holds the address.
    Indirect,
    /// The byte after the opcode plus X points, inside page zero, at the word
    /// that holds the address.
    IndirectX,
    /// The byte after the opcode points, inside page zero, at a word; the
    /// address is that word plus Y.
    IndirectY,
    /// The byte after the opcode is a signed distance from the next instruction.
    Relative,
}

impl Mode {
    /// Number of bytes that follow the opcode.
    pub open spec fn spec_operand_bytes(self) -> u16 {
        match self {
            Mode::Implied | Mode::Accumulator => 0,
            Mode::Absolute | Mode::AbsoluteX | Mode::AbsoluteY | Mode::Indirect => 2,
            _ => 1,
        }
    }

    /// Number of bytes that follow the opcode.
    #[verifier::when_used_as_spec(spec_operand_bytes)]
    pub fn operand_bytes(self) -> (n: u16)
        ensures
            n == self.spec_operand_bytes(),
    {
        match self {
            Mode::Implied | Mode::Accumulator => 0,
            Mode::Absolute | Mode::AbsoluteX | Mode::AbsoluteY | Mode::Indirect => 2,
            _ => 1,
        }
    }
}

/// What an instruction does, by mnemonic.
#[derive(Clone, Copy, Debug, PartialEq, Eq, Structural)]
pub enum Operation {
    Lda, Ldx, Ldy,
    Sta, Stx, Sty,
    Jmp, Jsr, Rts,
    Tsx, Txs, Tax, Tay, Txa, Tya,
    Inx, Iny, Dex, Dey, Inc, Dec,
    Pha, Php, Pla, Plp,
    And, Eor, Ora, Bit,
    Beq, Bne, Bcs, Bcc, Bmi, Bpl, Bvc, Bvs,
    Clc, Sec, Cld, Sed, Cli, Sei, Clv,
    Adc, Sbc, Cmp, Cpx, Cpy,
    Asl, Lsr, Rol, Ror,
    Brk, Rti, Nop,
}

impl Operation {
    /// Whether the operation takes the value of its operand as input.
    pub open spec fn spec_reads_operand(self) -> bool {
        match self {
            Operation::Lda | Operation::Ldx | Operation::Ldy => true,
            Operation::And | Operation::Eor | Operation::Ora | Operation::Bit => true,
            Operation::Adc | Operation::Sbc => true,
            Operation::Cmp | Operation::Cpx | Operation::Cpy => true,
            Operation::Inc | Operation::Dec => true,
            Operation::Asl | Operation::Lsr | Operation::Rol | Operation::Ror => true,
            _ => false,
        }
    }

    /// Whether the operation takes the value of its operand as input.
    #[verifier::when_used_as_spec(spec_reads_operand)]
    pub fn reads_operand(self) -> (b: bool)
        ensures
            b == self.spec_reads_operand(),
    {
        match self {
            Operation::Lda | Operation::Ldx | Operation::Ldy => true,
            Operation::And | Operation::Eor | Operation::Ora | Operation::Bit => true,
            Operation::Adc | Operation::Sbc => true,
            Operation::Cmp | Operation::Cpx | Operation::Cpy => true,
            Operation::Inc | Operation::Dec => true,
            Operation::Asl | Operation::Lsr | Operation::Rol | Operation::Ror => true,
            _ => false,
        }
    }

    /// Whether the operation puts a result back where its operand came from.
    pub open spec fn spec_writes_operand(self) -> bool {
        match self {
            Operation::Sta | Operation::Stx | Operation::Sty => true,
            Operation::Inc | Operation::Dec => true,
            Operation::Asl | Operation::Lsr | Operation::Rol | Operation::Ror => true,
            _ => false,
        }
    }

    /// Whether the operation puts a result back where its operand came from.
    #[verifier::when_used_as_spec(spec_writes_operand)]
    pub fn writes_operand(self) -> (b: bool)
        ensures
            b == self.spec_writes_operand(),
    {
        match self {
            Operation::Sta | Operation::Stx | Operation::Sty => true,
            Operation::Inc | Operation::Dec => true,
            Operation::Asl | Operation::Lsr | Operation::Rol | Operation::Ror => true,
            _ => false,
        }
    }

    /// Whether the operation is a conditional branch.
    pub open spec fn spec_is_branch(self) -> bool {
        match self {
            Operation::Beq | Operation::Bne | Operation::Bcs | Operation::Bcc => true,
            Operation::Bmi | Operation::Bpl | Operation::Bvc | Operation::Bvs => true,
            _ => false,
        }
    }

    /// Whether the operation is a conditional branch.
    #[verifier::when_used_as_spec(spec_is_branch)]
    pub fn is_branch(self) -> (b: bool)
        ensures
            b == self.spec_is_branch(),
    {
        match self {
            Operation::Beq | Operation::Bne | Operation::Bcs | Operation::Bcc => true,
            Operation::Bmi | Operation::Bpl | Operation::Bvc | Operation::Bvs => true,
            _ => false,
        }
    }

    /// Whether the operation chooses the next program counter itself: a jump,
    /// a branch, a call, a return or a software interrupt.
    pub open spec fn spec_sets_pc(self) -> bool {
        match self {
            Operation::Jmp | Operation::Jsr | Operation::Rts => true,
            Operation::Brk | Operation::Rti => true,
            _ => self.spec_is_branch(),
        }
    }

    /// Whether the operation chooses the next program counter itself: a jump,
    /// a branch, a call, a return or a software interrupt.
    #[verifier::when_used_as_spec(spec_sets_pc)]
    pub fn sets_pc(self) -> (b: bool)
        ensures
            b == self.spec_sets_pc(),
    {
        match self {
            Operation::Jmp | Operation::Jsr | Operation::Rts => true,
            Operation::Brk | Operation::Rti => true,
            _ => self.is_branch(),
        }
    }
}

/// One entry of the opcode table.
#[derive(Clone, Copy, Debug, PartialEq, Eq, Structural)]
pub struct Instruction {
    pub operation: Operation,
    pub mode: Mode,
}

impl Instruction {
    /// Whether executing the instruction stores a byte at its operand's
    /// address. A shift or rotate of the accumulator does not.
    pub open spec fn spec_stores(self) -> bool {
        match self.operation {
            Operation::Asl | Operation::Lsr | Operation::Rol | Operation::Ror => self.mode
                != Mode::Accumulator,
            _ => self.operation.spec_writes_operand(),
        }
    }

    /// Whether executing the instruction stores a byte at its operand's
    /// address. A shift or rotate of the accumulator does not.
    #[verifier::when_used_as_spec(spec_stores)]
    pub fn stores(self) -> (b: bool)
        ensures
            b == self.spec_stores(),
    {
        match self.operation {
            Operation::Asl | Operation::Lsr | Operation::Rol | Operation::Ror => self.mode
                != Mode::Accumulator,
            _ => self.operation.writes_operand(),
        }
    }
}

/// The opcode table. `None` stands for a byte that is no instruction of this
/// machine.
pub open spec fn instruction_of(opcode: u8) -> Option<Instruction> {
    match opcode {
        LDA_IMMEDIATE => Some(Instruction { operation: Operation::Lda, mode: Mode::Immediate }),
        LDA_ZERO_PAGE => Some(Instruction { operation: Operation::Lda, mode: Mode::ZeroPage }),
        LDA_ZERO_PAGE_X => Some(Instruction { operation: Operation::Lda, mode: Mode::ZeroPageX }),
        LDA_ABSOLUTE => Some(Instruction { operation: Operation::Lda, mode: Mode::Absolute }),
        LDA_ABSOLUTE_X => Some(Instruction { operation: Operation::Lda, mode: Mode::AbsoluteX }),
        LDA_ABSOLUTE_Y => Some(Instruction { operation: Operation::Lda, mode: Mode::AbsoluteY }),
        LDA_INDIRECT_X => Some(Instruction { operation: Operation::Lda, mode: Mode::IndirectX }),
        LDA_INDIRECT_Y => Some(Instruction { operation: Operation::Lda, mode: Mode::IndirectY }),
        LDX_IMMEDIATE => Some(Instruction { operation: Operation::Ldx, mode: Mode::Immediate }),
        LDX_ZERO_PAGE => Some(Instruction { operation: Operation::Ldx, mode: Mode::ZeroPage }),
        LDX_ZERO_PAGE_Y => Some(Instruction { operation: Operation::Ldx, mode: Mode::ZeroPageY }),
        LDX_ABSOLUTE => Some(Instruction { operation: Operation::Ldx, mode: Mode::Absolute }),
        LDX_ABSOLUTE_Y => Some(Instruction { operation: Operation::Ldx, mode: Mode::AbsoluteY }),
        LDY_IMMEDIATE => Some(Instruction { operation: Operation::Ldy, mode: Mode::Immediate }),
        LDY_ZERO_PAGE => Some(Instruction { operation: Operation::Ldy, mode: Mode::ZeroPage }),
        LDY_ZERO_PAGE_X => Some(Instruction { operation: Operation::Ldy, mode: Mode::ZeroPageX }),
        LDY_ABSOLUTE => Some(Instruction { operation: Operation::Ldy, mode: Mode::Absolute }),
        LDY_ABSOLUTE_X => Some(Instruction { operation: Operation::Ldy, mode: Mode::AbsoluteX }),
        STA_ZERO_PAGE => Some(Instruction { operation: Operation::Sta, mode: Mode::ZeroPage }),
        STA_ZERO_PAGE_X => Some(Instruction { operation: Operation::Sta, mode: Mode::ZeroPageX }),
        STA_ABSOLUTE => Some(Instruction { operation: Operation::Sta, mode: Mode::Absolute }),
        STA_ABSOLUTE_X => Some(Instruction { operation: Operation::Sta, mode: Mode::AbsoluteX }),
        STA_ABSOLUTE_Y => Some(Instruction { operation: Operation::Sta, mode: Mode::AbsoluteY }),
        STA_INDIRECT_X => Some(Instruction { operation: Operation::Sta, mode: Mode::IndirectX }),
        STA_INDIRECT_Y => Some(Instruction { operation: Operation::Sta, mode: Mode::IndirectY }),
        STX_ZERO_PAGE => Some(Instruction { operation: Operation::Stx, mode: Mode::ZeroPage }),
        STX_ZERO_PAGE_Y => Some(Instruction { operation: Operation::Stx, mode: Mode::ZeroPageY }),
        STX_ABSOLUTE => Some(Instruction { operation: Operation::Stx, mode: Mode::Absolute }),
        STY_ZERO_PAGE => Some(Instruction { operation: Operation::Sty, mode: Mode::ZeroPage }),
        STY_ZERO_PAGE_X => Some(Instruction { operation: Operation::Sty, mode: Mode::ZeroPageX }),
        STY_ABSOLUTE => Some(Instruction { operation: Operation::Sty, mode: Mode::Absolute }),
        JMP_ABSOLUTE => Some(Instruction { operation: Operation::Jmp, mode: Mode::Absolute }),
        JMP_INDIRECT => Some(Instruction { operation: Operation::Jmp, mode: Mode::Indirect }),
        JSR => Some(Instruction { operation: Operation::Jsr, mode: Mode::Absolute }),
        RTS => Some(Instruction { operation: Operation::Rts, mode: Mode::Implied }),
        TSX => Some(Instruction { operation: Operation::Tsx, mode: Mode::Implied }),
        TXS => Some(Instruction { operation: Operation::Txs, mode: Mode::Implied }),
        TAX => Some(Instruction { operation: Operation::Tax, mode: Mode::Implied }),
        TAY => Some(Instruction { operation: Operation::Tay, mode: Mode::Implied }),
        TXA => Some(Instruction { operation: Operation::Txa, mode: Mode::Implied }),
        TYA => Some(Instruction { operation: Operation::Tya, mode: Mode::Implied }),
        INX => Some(Instruction { operation: Operation::Inx, mode: Mode::Implied }),
        INY => Some(Instruction { operation: Operation::Iny, mode: Mode::Implied }),
        DEX => Some(Instruction { operation: Operation::Dex, mode: Mode::Implied }),
        DEY => Some(Instruction { operation: Operation::Dey, mode: Mode::Implied }),
        INC_ZERO_PAGE => Some(Instruction { operation: Operation::Inc, mode: Mode::ZeroPage }),
        INC_ZERO_PAGE_X => Some(Instruction { operation: Operation::Inc, mode: Mode::ZeroPageX }),
        INC_ABSOLUTE => Some(Instruction { operation: Operation::Inc, mode: Mode::Absolute }),
        INC_ABSOLUTE_X => Some(Instruction { operation: Operation::Inc, mode: Mode::AbsoluteX }),
        DEC_ZERO_PAGE => Some(Instruction { operation: Operation::Dec, mode: Mode::ZeroPage }),
        DEC_ZERO_PAGE_X => Some(Instruction { operation: Operation::Dec, mode: Mode::ZeroPageX }),
        DEC_ABSOLUTE => Some(Instruction { operation: Operation::Dec, mode: Mode::Absolute }),
        DEC_ABSOLUTE_X => Some(Instruction { operation: Operation::Dec, mode: Mode::AbsoluteX }),
        PHA => Some(Instruction { operation: Operation::Pha, mode: Mode::Implied }),
        PHP => Some(Instruction { operation: Operation::Php, mode: Mode::Implied }),
        PLA => Some(Instruction { operation: Operation::Pla, mode: Mode::Implied }),
        PLP => Some(Instruction { operation: Operation::Plp, mode: Mode::Implied }),
        AND_IMMEDIATE => Some(Instruction { operation: Operation::And, mode: Mode::Immediate }),
        AND_ZERO_PAGE => Some(Instruction { operation: Operation::And, mode: Mode::ZeroPage }),
        AND_ZERO_PAGE_X => Some(Instruction { operation: Operation::And, mode: Mode::ZeroPageX }),
        AND_ABSOLUTE => Some(Instruction { operation: Operation::And, mode: Mode::Absolute }),
        AND_ABSOLUTE_X => Some(Instruction { operation: Operation::And, mode: Mode::AbsoluteX }),
        AND_ABSOLUTE_Y => Some(Instruction { operation: Operation::And, mode: Mode::AbsoluteY }),
        AND_INDIRECT_X => Some(Instruction { operation: Operation::And, mode: Mode::IndirectX }),
        AND_INDIRECT_Y => Some(Instruction { operation: Operation::And, mode: Mode::IndirectY }),
        EOR_IMMEDIATE => Some(Instruction { operation: Operation::Eor, mode: Mode::Immediate }),
        EOR_ZERO_PAGE => Some(Instruction { operation: Operation::Eor, mode: Mode::ZeroPage }),
        EOR_ZERO_PAGE_X => Some(Instruction { operation: Operation::Eor, mode: Mode::ZeroPageX }),
        EOR_ABSOLUTE => Some(Instruction { operation: Operation::Eor, mode: Mode::Absolute }),
        EOR_ABSOLUTE_X => Some(Instruction { operation: Operation::Eor, mode: Mode::AbsoluteX }),
        EOR_ABSOLUTE_Y => Some(Instruction { operation: Operation::Eor, mode: Mode::AbsoluteY }),
        EOR_INDIRECT_X => Some(Instruction { operation: Operation::Eor, mode: Mode::IndirectX }),
        EOR_INDIRECT_Y => Some(Instruction { operation: Operation::Eor, mode: Mode::IndirectY }),
        ORA_IMMEDIATE => Some(Instruction { operation: Operation::Ora, mode: Mode::Immediate }),
        ORA_ZERO_PAGE => Some(Instruction { operation: Operation::Ora, mode: Mode::ZeroPage }),
        ORA_ZERO_PAGE_X => Some(Instruction { operation: Operation::Ora, mode: Mode::ZeroPageX }),
        ORA_ABSOLUTE => Some(Instruction { operation: Operation::Ora, mode: Mode::Absolute }),
        ORA_ABSOLUTE_X => Some(Instruction { operation: Operation::Ora, mode: Mode::AbsoluteX }),
        ORA_ABSOLUTE_Y => Some(Instruction { operation: Operation::Ora, mode: Mode::AbsoluteY }),
        ORA_INDIRECT_X => Some(Instruction { operation: Operation::Ora, mode: Mode::IndirectX }),
        ORA_INDIRECT_Y => Some(Instruction { operation: Operation::Ora, mode: Mode::IndirectY }),
        BIT_ZERO_PAGE => Some(Instruction { operation: Operation::Bit, mode: Mode::ZeroPage }),
        BIT_ABSOLUTE => Some(Instruction { operation: Operation::Bit, mode: Mode::Absolute }),
        BEQ => Some(Instruction { operation: Operation::Beq, mode: Mode::Relative }),
        BNE => Some(Instruction { operation: Operation::Bne, mode: Mode::Relative }),
        BCS => Some(Instruction { operation: Operation::Bcs, mode: Mode::Relative }),
        BCC => Some(Instruction { operation: Operation::Bcc, mode: Mode::Relative }),
        BMI => Some(Instruction { operation: Operation::Bmi, mode: Mode::Relative }),
        BPL => Some(Instruction { operation: Operation::Bpl, mode: Mode::Relative }),
        BVC => Some(Instruction { operation: Operation::Bvc, mode: Mode::Relative }),
        BVS => Some(Instruction { operation: Operation::Bvs, mode: Mode::Relative }),
        CLC => Some(Instruction { operation: Operation::Clc, mode: Mode::Implied }),
        SEC => Some(Instruction { operation: Operation::Sec, mode: Mode::Implied }),
        CLD => Some(Instruction { operation: Operation::Cld, mode: Mode::Implied }),
        SED => Some(Instruction { operation: Operation::Sed, mode: Mode::Implied }),
        CLI => Some(Instruction { operation: Operation::Cli, mode: Mode::Implied }),
        SEI => Some(Instruction { operation: Operation::Sei, mode: Mode::Implied }),
        CLV => Some(Instruction { operation: Operation::Clv, mode: Mode::Implied }),
        ADC_IMMEDIATE => Some(Instruction { operation: Operation::Adc, mode: Mode::Immediate }),
        ADC_ZERO_PAGE => Some(Instruction { operation: Operation::Adc, mode: Mode::ZeroPage }),
        ADC_ZERO_PAGE_X => Some(Instruction { operation: Operation::Adc, mode: Mode::ZeroPageX }),
        ADC_ABSOLUTE => Some(Instruction { operation: Operation::Adc, mode: Mode::Absolute }),
        ADC_ABSOLUTE_X => Some(Instruction { operation: Operation::Adc, mode: Mode::AbsoluteX }),
        ADC_ABSOLUTE_Y => Some(Instruction { operation: Operation::Adc, mode: Mode::AbsoluteY }),
        ADC_INDIRECT_X => Some(Instruction { operation: Operation::Adc, mode: Mode::IndirectX }),
        ADC_INDIRECT_Y => Some(Instruction { operation: Operation::Adc, mode: Mode::IndirectY }),
        SBC_IMMEDIATE => Some(Instruction { operation: Operation::Sbc, mode: Mode::Immediate }),
        SBC_ZERO_PAGE => Some(Instruction { operation: Operation::Sbc, mode: Mode::ZeroPage }),
        SBC_ZERO_PAGE_X => Some(Instruction { operation: Operation::Sbc, mode: Mode::ZeroPageX }),
        SBC_ABSOLUTE => Some(Instruction { operation: Operation::Sbc, mode: Mode::Absolute }),
        SBC_ABSOLUTE_X => Some(Instruction { operation: Operation::Sbc, mode: Mode::AbsoluteX }),
        SBC_ABSOLUTE_Y => Some(Instruction { operation: Operation::Sbc, mode: Mode::AbsoluteY }),
        SBC_INDIRECT_X => Some(Instruction { operation: Operation::Sbc, mode: Mode::IndirectX }),
        SBC_INDIRECT_Y => Some(Instruction { operation: Operation::Sbc, mode: Mode::IndirectY }),
        CMP_IMMEDIATE => Some(Instruction { operation: Operation::Cmp, mode: Mode::Immediate }),
        CMP_ZERO_PAGE => Some(Instruction { operation: Operation::Cmp, mode: Mode::ZeroPage }),
        CMP_ZERO_PAGE_X => Some(Instruction { operation: Operation::Cmp, mode: Mode::ZeroPageX }),
        CMP_ABSOLUTE => Some(Instruction { operation: Operation::Cmp, mode: Mode::Absolute }),
        CMP_ABSOLUTE_X => Some(Instruction { operation: Operation::Cmp, mode: Mode::AbsoluteX }),
        CMP_ABSOLUTE_Y => Some(Instruction { operation: Operation::Cmp, mode: Mode::AbsoluteY }),
        CMP_INDIRECT_X => Some(Instruction { operation: Operation::Cmp, mode: Mode::IndirectX }),
        CMP_INDIRECT_Y => Some(Instruction { operation: Operation::Cmp, mode: Mode::IndirectY }),
        CPX_IMMEDIATE => Some(Instruction { operation: Operation::Cpx, mode: Mode::Immediate }),
        CPX_ZERO_PAGE => Some(Instruction { operation: Operation::Cpx, mode: Mode::ZeroPage }),
        CPX_ABSOLUTE => Some(Instruction { operation: Operation::Cpx, mode: Mode::Absolute }),
        CPY_IMMEDIATE => Some(Instruction { operation: Operation::Cpy, mode: Mode::Immediate }),
        CPY_ZERO_PAGE => Some(Instruction { operation: Operation::Cpy, mode: Mode::ZeroPage }),
        CPY_ABSOLUTE => Some(Instruction { operation: Operation::Cpy, mode: Mode::Absolute }),
        ASL_ACCUMULATOR => Some(Instruction { operation: Operation::Asl, mode: Mode::Accumulator }),
        ASL_ZERO_PAGE => Some(Instruction { operation: Operation::Asl, mode: Mode::ZeroPage }),
        ASL_ZERO_PAGE_X => Some(Instruction { operation: Operation::Asl, mode: Mode::ZeroPageX }),
        ASL_ABSOLUTE => Some(Instruction { operation: Operation::Asl, mode: Mode::Absolute }),
        ASL_ABSOLUTE_X => Some(Instruction { operation: Operation::Asl, mode: Mode::AbsoluteX }),
        LSR_ACCUMULATOR => Some(Instruction { operation: Operation::Lsr, mode: Mode::Accumulator }),
        LSR_ZERO_PAGE => Some(Instruction { operation: Operation::Lsr, mode: Mode::ZeroPage }),
        LSR_ZERO_PAGE_X => Some(Instruction { operation: Operation::Lsr, mode: Mode::ZeroPageX }),
        LSR_ABSOLUTE => Some(Instruction { operation: Operation::Lsr, mode: Mode::Absolute }),
        LSR_ABSOLUTE_X => Some(Instruction { operation: Operation::Lsr, mode: Mode::AbsoluteX }),
        ROL_ACCUMULATOR => Some(Instruction { operation: Operation::Rol, mode: Mode::Accumulator }),
        ROL_ZERO_PAGE => Some(Instruction { operation: Operation::Rol, mode: Mode::ZeroPage }),
        ROL_ZERO_PAGE_X => Some(Instruction { operation: Operation::Rol, mode: Mode::ZeroPageX }),
        ROL_ABSOLUTE => Some(Instruction { operation: Operation::Rol, mode: Mode::Absolute }),
        ROL_ABSOLUTE_X => Some(Instruction { operation: Operation::Rol, mode: Mode::AbsoluteX }),
        ROR_ACCUMULATOR => Some(Instruction { operation: Operation::Ror, mode: Mode::Accumulator }),
        ROR_ZERO_PAGE => Some(Instruction { operation: Operation::Ror, mode: Mode::ZeroPage }),
        ROR_ZERO_PAGE_X => Some(Instruction { operation: Operation::Ror, mode: Mode::ZeroPageX }),
        ROR_ABSOLUTE => Some(Instruction { operation: Operation::Ror, mode: Mode::Absolute }),
        ROR_ABSOLUTE_X => Some(Instruction { operation: Operation::Ror, mode: Mode::AbsoluteX }),
        BRK => Some(Instruction { operation: Operation::Brk, mode: Mode::Implied }),
        RTI => Some(Instruction { operation: Operation::Rti, mode: Mode::Implied }),
        NOP => Some(Instruction { operation: Operation::Nop, mode: Mode::Implied }),
        _ => None,
    }
}

/// Looks an opcode up in the table.
pub fn decode(opcode: u8) -> (instruction: Option<Instruction>)
    ensures
        instruction == instruction_of(opcode),
{
    match opcode {
        LDA_IMMEDIATE => Some(Instruction { operation: Operation::Lda, mode: Mode::Immediate }),
        LDA_ZERO_PAGE => Some(Instruction { operation: Operation::Lda, mode: Mode::ZeroPage }),
        LDA_ZERO_PAGE_X => Some(Instruction { operation: Operation::Lda, mode: Mode::ZeroPageX }),
        LDA_ABSOLUTE => Some(Instruction { operation: Operation::Lda, mode: Mode::Absolute }),
        LDA_ABSOLUTE_X => Some(Instruction { operation: Operation::Lda, mode: Mode::AbsoluteX }),
        LDA_ABSOLUTE_Y => Some(Instruction { operation: Operation::Lda, mode: Mode::AbsoluteY }),
        LDA_INDIRECT_X => Some(Instruction { operation: Operation::Lda, mode: Mode::IndirectX }),
        LDA_INDIRECT_Y => Some(Instruction { operation: Operation::Lda, mode: Mode::IndirectY }),
        LDX_IMMEDIATE => Some(Instruction { operation: Operation::Ldx, mode: Mode::Immediate }),
        LDX_ZERO_PAGE => Some(Instruction { operation: Operation::Ldx, mode: Mode::ZeroPage }),
        LDX_ZERO_PAGE_Y => Some(Instruction { operation: Operation::Ldx, mode: Mode::ZeroPageY }),
        LDX_ABSOLUTE => Some(Instruction { operation: Operation::Ldx, mode: Mode::Absolute }),
        LDX_ABSOLUTE_Y => Some(Instruction { operation: Operation::Ldx, mode: Mode::AbsoluteY }),
        LDY_IMMEDIATE => Some(Instruction { operation: Operation::Ldy, mode: Mode::Immediate }),
        LDY_ZERO_PAGE => Some(Instruction { operation: Operation::Ldy, mode: Mode::ZeroPage }),
        LDY_ZERO_PAGE_X => Some(Instruction { operation: Operation::Ldy, mode: Mode::ZeroPageX }),
        LDY_ABSOLUTE => Some(Instruction { operation: Operation::Ldy, mode: Mode::Absolute }),
        LDY_ABSOLUTE_X => Some(Instruction { operation: Operation::Ldy, mode: Mode::AbsoluteX }),
        STA_ZERO_PAGE => Some(Instruction { operation: Operation::Sta, mode: Mode::ZeroPage }),
        STA_ZERO_PAGE_X => Some(Instruction { operation: Operation::Sta, mode: Mode::ZeroPageX }),
        STA_ABSOLUTE => Some(Instruction { operation: Operation::Sta, mode: Mode::Absolute }),
        STA_ABSOLUTE_X => Some(Instruction { operation: Operation::Sta, mode: Mode::AbsoluteX }),
        STA_ABSOLUTE_Y => Some(Instruction { operation: Operation::Sta, mode: Mode::AbsoluteY }),
        STA_INDIRECT_X => Some(Instruction { operation: Operation::Sta, mode: Mode::IndirectX }),
        STA_INDIRECT_Y => Some(Instruction { operation: Operation::Sta, mode: Mode::IndirectY }),
        STX_ZERO_PAGE => Some(Instruction { operation: Operation::Stx, mode: Mode::ZeroPage }),
        STX_ZERO_PAGE_Y => Some(Instruction { operation: Operation::Stx, mode: Mode::ZeroPageY }),
        STX_ABSOLUTE => Some(Instruction { operation: Operation::Stx, mode: Mode::Absolute }),
        STY_ZERO_PAGE => Some(Instruction { operation: Operation::Sty, mode: Mode::ZeroPage }),
        STY_ZERO_PAGE_X => Some(Instruction { operation: Operation::Sty, mode: Mode::ZeroPageX }),
        STY_ABSOLUTE => Some(Instruction { operation: Operation::Sty, mode: Mode::Absolute }),
        JMP_ABSOLUTE => Some(Instruction { operation: Operation::Jmp, mode: Mode::Absolute }),
        JMP_INDIRECT => Some(Instruction { operation: Operation::Jmp, mode: Mode::Indirect }),
        JSR => Some(Instruction { operation: Operation::Jsr, mode: Mode::Absolute }),
        RTS => Some(Instruction { operation: Operation::Rts, mode: Mode::Implied }),
        TSX => Some(Instruction { operation: Operation::Tsx, mode: Mode::Implied }),
        TXS => Some(Instruction { operation: Operation::Txs, mode: Mode::Implied }),
        TAX => Some(Instruction { operation: Operation::Tax, mode: Mode::Implied }),
        TAY => Some(Instruction { operation: Operation::Tay, mode: Mode::Implied }),
        TXA => Some(Instruction { operation: Operation::Txa, mode: Mode::Implied }),
        TYA => Some(Instruction { operation: Operation::Tya, mode: Mode::Implied }),
        INX => Some(Instruction { operation: Operation::Inx, mode: Mode::Implied }),
        INY => Some(Instruction { operation: Operation::Iny, mode: Mode::Implied }),
        DEX => Some(Instruction { operation: Operation::Dex, mode: Mode::Implied }),
        DEY => Some(Instruction { operation: Operation::Dey, mode: Mode::Implied }),
        INC_ZERO_PAGE => Some(Instruction { operation: Operation::Inc, mode: Mode::ZeroPage }),
        INC_ZERO_PAGE_X => Some(Instruction { operation: Operation::Inc, mode: Mode::ZeroPageX }),
        INC_ABSOLUTE => Some(Instruction { operation: Operation::Inc, mode: Mode::Absolute }),
        INC_ABSOLUTE_X => Some(Instruction { operation: Operation::Inc, mode: Mode::AbsoluteX }),
        DEC_ZERO_PAGE => Some(Instruction { operation: Operation::Dec, mode: Mode::ZeroPage }),
        DEC_ZERO_PAGE_X => Some(Instruction { operation: Operation::Dec, mode: Mode::ZeroPageX }),
        DEC_ABSOLUTE => Some(Instruction { operation: Operation::Dec, mode: Mode::Absolute }),
        DEC_ABSOLUTE_X => Some(Instruction { operation: Operation::Dec, mode: Mode::AbsoluteX }),
        PHA => Some(Instruction { operation: Operation::Pha, mode: Mode::Implied }),
        PHP => Some(Instruction { operation: Operation::Php, mode: Mode::Implied }),
        PLA => Some(Instruction { operation: Operation::Pla, mode: Mode::Implied }),
        PLP => Some(Instruction { operation: Operation::Plp, mode: Mode::Implied }),
        AND_IMMEDIATE => Some(Instruction { operation: Operation::And, mode: Mode::Immediate }),
        AND_ZERO_PAGE => Some(Instruction { operation: Operation::And, mode: Mode::ZeroPage }),
        AND_ZERO_PAGE_X => Some(Instruction { operation: Operation::And, mode: Mode::ZeroPageX }),
        AND_ABSOLUTE => Some(Instruction { operation: Operation::And, mode: Mode::Absolute }),
        AND_ABSOLUTE_X => Some(Instruction { operation: Operation::And, mode: Mode::AbsoluteX }),
        AND_ABSOLUTE_Y => Some(Instruction { operation: Operation::And, mode: Mode::AbsoluteY }),
        AND_INDIRECT_X => Some(Instruction { operation: Operation::And, mode: Mode::IndirectX }),
        AND_INDIRECT_Y => Some(Instruction { operation: Operation::And, mode: Mode::IndirectY }),
        EOR_IMMEDIATE => Some(Instruction { operation: Operation::Eor, mode: Mode::Immediate }),
        EOR_ZERO_PAGE => Some(Instruction { operation: Operation::Eor, mode: Mode::ZeroPage }),
        EOR_ZERO_PAGE_X => Some(Instruction { operation: Operation::Eor, mode: Mode::ZeroPageX }),
        EOR_ABSOLUTE => Some(Instruction { operation: Operation::Eor, mode: Mode::Absolute }),
        EOR_ABSOLUTE_X => Some(Instruction { operation: Operation::Eor, mode: Mode::AbsoluteX }),
        EOR_ABSOLUTE_Y => Some(Instruction { operation: Operation::Eor, mode: Mode::AbsoluteY }),
        EOR_INDIRECT_X => Some(Instruction { operation: Operation::Eor, mode: Mode::IndirectX }),
        EOR_INDIRECT_Y => Some(Instruction { operation: Operation::Eor, mode: Mode::IndirectY }),
        ORA_IMMEDIATE => Some(Instruction { operation: Operation::Ora, mode: Mode::Immediate }),
        ORA_ZERO_PAGE => Some(Instruction { operation: Operation::Ora, mode: Mode::ZeroPage }),
        ORA_ZERO_PAGE_X => Some(Instruction { operation: Operation::Ora, mode: Mode::ZeroPageX }),
        ORA_ABSOLUTE => Some(Instruction { operation: Operation::Ora, mode: Mode::Absolute }),
        ORA_ABSOLUTE_X => Some(Instruction { operation: Operation::Ora, mode: Mode::AbsoluteX }),
        ORA_ABSOLUTE_Y => Some(Instruction { operation: Operation::Ora, mode: Mode::AbsoluteY }),
        ORA_INDIRECT_X => Some(Instruction { operation: Operation::Ora, mode: Mode::IndirectX }),
        ORA_INDIRECT_Y => Some(Instruction { operation: Operation::Ora, mode: Mode::IndirectY }),
        BIT_ZERO_PAGE => Some(Instruction { operation: Operation::Bit, mode: Mode::ZeroPage }),
        BIT_ABSOLUTE => Some(Instruction { operation: Operation::Bit, mode: Mode::Absolute }),
        BEQ => Some(Instruction { operation: Operation::Beq, mode: Mode::Relative }),
        BNE => Some(Instruction { operation: Operation::Bne, mode: Mode::Relative }),
        BCS => Some(Instruction { operation: Operation::Bcs, mode: Mode::Relative }),
        BCC => Some(Instruction { operation: Operation::Bcc, mode: Mode::Relative }),
        BMI => Some(Instruction { operation: Operation::Bmi, mode: Mode::Relative }),
        BPL => Some(Instruction { operation: Operation::Bpl, mode: Mode::Relative }),
        BVC => Some(Instruction { operation: Operation::Bvc, mode: Mode::Relative }),
        BVS => Some(Instruction { operation: Operation::Bvs, mode: Mode::Relative }),
        CLC => Some(Instruction { operation: Operation::Clc, mode: Mode::Implied }),
        SEC => Some(Instruction { operation: Operation::Sec, mode: Mode::Implied }),
        CLD => Some(Instruction { operation: Operation::Cld, mode: Mode::Implied }),
        SED => Some(Instruction { operation: Operation::Sed, mode: Mode::Implied }),
        CLI => Some(Instruction { operation: Operation::Cli, mode: Mode::Implied }),
        SEI => Some(Instruction { operation: Operation::Sei, mode: Mode::Implied }),
        CLV => Some(Instruction { operation: Operation::Clv, mode: Mode::Implied }),
        ADC_IMMEDIATE => Some(Instruction { operation: Operation::Adc, mode: Mode::Immediate }),
        ADC_ZERO_PAGE => Some(Instruction { operation: Operation::Adc, mode: Mode::ZeroPage }),
        ADC_ZERO_PAGE_X => Some(Instruction { operation: Operation::Adc, mode: Mode::ZeroPageX }),
        ADC_ABSOLUTE => Some(Instruction { operation: Operation::Adc, mode: Mode::Absolute }),
        ADC_ABSOLUTE_X => Some(Instruction { operation: Operation::Adc, mode: Mode::AbsoluteX }),
        ADC_ABSOLUTE_Y => Some(Instruction { operation: Operation::Adc, mode: Mode::AbsoluteY }),
        ADC_INDIRECT_X => Some(Instruction { operation: Operation::Adc, mode: Mode::IndirectX }),
        ADC_INDIRECT_Y => Some(Instruction { operation: Operation::Adc, mode: Mode::IndirectY }),
        SBC_IMMEDIATE => Some(Instruction { operation: Operation::Sbc, mode: Mode::Immediate }),
        SBC_ZERO_PAGE => Some(Instruction { operation: Operation::Sbc, mode: Mode::ZeroPage }),
        SBC_ZERO_PAGE_X => Some(Instruction { operation: Operation::Sbc, mode: Mode::ZeroPageX }),
        SBC_ABSOLUTE => Some(Instruction { operation: Operation::Sbc, mode: Mode::Absolute }),
        SBC_ABSOLUTE_X => Some(Instruction { operation: Operation::Sbc, mode: Mode::AbsoluteX }),
        SBC_ABSOLUTE_Y => Some(Instruction { operation: Operation::Sbc, mode: Mode::AbsoluteY }),
        SBC_INDIRECT_X => Some(Instruction { operation: Operation::Sbc, mode: Mode::IndirectX }),
        SBC_INDIRECT_Y => Some(Instruction { operation: Operation::Sbc, mode: Mode::IndirectY }),
        CMP_IMMEDIATE => Some(Instruction { operation: Operation::Cmp, mode: Mode::Immediate }),
        CMP_ZERO_PAGE => Some(Instruction { operation: Operation::Cmp, mode: Mode::ZeroPage }),
        CMP_ZERO_PAGE_X => Some(Instruction { operation: Operation::Cmp, mode: Mode::ZeroPageX }),
        CMP_ABSOLUTE => Some(Instruction { operation: Operation::Cmp, mode: Mode::Absolute }),
        CMP_ABSOLUTE_X => Some(Instruction { operation: Operation::Cmp, mode: Mode::AbsoluteX }),
        CMP_ABSOLUTE_Y => Some(Instruction { operation: Operation::Cmp, mode: Mode::AbsoluteY }),
        CMP_INDIRECT_X => Some(Instruction { operation: Operation::Cmp, mode: Mode::IndirectX }),
        CMP_INDIRECT_Y => Some(Instruction { operation: Operation::Cmp, mode: Mode::IndirectY }),
        CPX_IMMEDIATE => Some(Instruction { operation: Operation::Cpx, mode: Mode::Immediate }),
        CPX_ZERO_PAGE => Some(Instruction { operation: Operation::Cpx, mode: Mode::ZeroPage }),
        CPX_ABSOLUTE => Some(Instruction { operation: Operation::Cpx, mode: Mode::Absolute }),
        CPY_IMMEDIATE => Some(Instruction { operation: Operation::Cpy, mode: Mode::Immediate }),
        CPY_ZERO_PAGE => Some(Instruction { operation: Operation::Cpy, mode: Mode::ZeroPage }),
        CPY_ABSOLUTE => Some(Instruction { operation: Operation::Cpy, mode: Mode::Absolute }),
        ASL_ACCUMULATOR => Some(Instruction { operation: Operation::Asl, mode: Mode::Accumulator }),
        ASL_ZERO_PAGE => Some(Instruction { operation: Operation::Asl, mode: Mode::ZeroPage }),
        ASL_ZERO_PAGE_X => Some(Instruction { operation: Operation::Asl, mode: Mode::ZeroPageX }),
        ASL_ABSOLUTE => Some(Instruction { operation: Operation::Asl, mode: Mode::Absolute }),
        ASL_ABSOLUTE_X => Some(Instruction { operation: Operation::Asl, mode: Mode::AbsoluteX }),
        LSR_ACCUMULATOR => Some(Instruction { operation: Operation::Lsr, mode: Mode::Accumulator }),
        LSR_ZERO_PAGE => Some(Instruction { operation: Operation::Lsr, mode: Mode::ZeroPage }),
        LSR_ZERO_PAGE_X => Some(Instruction { operation: Operation::Lsr, mode: Mode::ZeroPageX }),
        LSR_ABSOLUTE => Some(Instruction { operation: Operation::Lsr, mode: Mode::Absolute }),
        LSR_ABSOLUTE_X => Some(Instruction { operation: Operation::Lsr, mode: Mode::AbsoluteX }),
        ROL_ACCUMULATOR => Some(Instruction { operation: Operation::Rol, mode: Mode::Accumulator }),
        ROL_ZERO_PAGE => Some(Instruction { operation: Operation::Rol, mode: Mode::ZeroPage }),
        ROL_ZERO_PAGE_X => Some(Instruction { operation: Operation::Rol, mode: Mode::ZeroPageX }),
        ROL_ABSOLUTE => Some(Instruction { operation: Operation::Rol, mode: Mode::Absolute }),
        ROL_ABSOLUTE_X => Some(Instruction { operation: Operation::Rol, mode: Mode::AbsoluteX }),
        ROR_ACCUMULATOR => Some(Instruction { operation: Operation::Ror, mode: Mode::Accumulator }),
        ROR_ZERO_PAGE => Some(Instruction { operation: Operation::Ror, mode: Mode::ZeroPage }),
        ROR_ZERO_PAGE_X => Some(Instruction { operation: Operation::Ror, mode: Mode::ZeroPageX }),
        ROR_ABSOLUTE => Some(Instruction { operation: Operation::Ror, mode: Mode::Absolute }),
        ROR_ABSOLUTE_X => Some(Instruction { operation: Operation::Ror, mode: Mode::AbsoluteX }),
        BRK => Some(Instruction { operation: Operation::Brk, mode: Mode::Implied }),
        RTI => Some(Instruction { operation: Operation::Rti, mode: Mode::Implied }),
        NOP => Some(Instruction { operation: Operation::Nop, mode: Mode::Implied }),
        _ => None,
    }
}

} // verus!
