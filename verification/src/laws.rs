//! What holds of the machine in every state: laws that relate the
//! operations of the bus and of the instruction engine to each other.

use crate::bytes::{high_byte, join, join_inverts_split, low_byte};
use crate::machine::{
    branch_target,
    flag_is_set,
    is_negative,
    with_flag,
    with_zero_negative,
    Draws,
    Machine,
    CARRY_FLAG,
    INTERRUPT_VECTOR,
    IRQ_DISABLE_FLAG,
    OVERFLOW_FLAG,
};
use crate::mapper::{BusView, CARTRIDGE_DATA_ADDRESS, IO_END, IO_START, RANDOM_ADDRESS};
use crate::opcodes::{instruction_of, Mode, Operation};
use crate::ppu::{PpuView, FRAME_SIZE};
use vstd::prelude::*;

verus! {

// The flags register.
/// A flag that was just set or cleared reads back as it was written.
pub proof fn written_flag_reads_back(flags: u8, condition: bool, flag: u8)
    requires
        flag != 0,
    ensures
        flag_is_set(with_flag(flags, condition, flag), flag) == condition,
{
    assert((flags | flag) & flag != 0) by (bit_vector)
        requires
            flag != 0,
    ;
    assert((flags & !flag) & flag == 0) by (bit_vector);
}

/// Setting or clearing one flag leaves every flag alone that shares no bit
/// with it.
pub proof fn other_flags_are_kept(flags: u8, condition: bool, flag: u8, other: u8)
    requires
        flag & other == 0,
    ensures
        with_flag(flags, condition, flag) & other == flags & other,
        flag_is_set(with_flag(flags, condition, flag), other) == flag_is_set(flags, other),
{
    assert((flags | flag) & other == flags & other) by (bit_vector)
        requires
            flag & other == 0,
    ;
    assert((flags & !flag) & other == flags & other) by (bit_vector)
        requires
            flag & other == 0,
    ;
}

// The bus.
/// No write changes what a read in ROM gives: neither a byte write nor a
/// word write, at whatever address.
pub proof fn rom_is_read_only(bus: BusView, byte: u8, word: u16, target: u16, address: u16, draw: u8)
    requires
        bus.wf(),
        target != CARTRIDGE_DATA_ADDRESS,
        address >= 0x8000,
    ensures
        bus.write_byte(byte, target).read_byte(address, draw) == bus.read_byte(address, draw),
        bus.write_word(word, target).read_byte(address, draw) == bus.read_byte(address, draw),
        bus.write_byte(byte, target).read_word(address, draw) == bus.read_word(address, draw),
        bus.write_word(word, target).read_word(address, draw) == bus.read_word(address, draw),
{
}

/// A write in ROM changes nothing at all.
pub proof fn rom_write_is_ignored(bus: BusView, byte: u8, word: u16, address: u16)
    requires
        address >= 0x8000,
    ensures
        bus.write_byte(byte, address) == bus,
        bus.write_word(word, address) == bus,
{
}

/// A byte written to RAM is the byte that the next read at that address
/// gives, and no other RAM byte changes.
pub proof fn ram_keeps_what_is_written(bus: BusView, byte: u8, target: u16, address: u16, draw: u8)
    requires
        bus.wf(),
        target < 0x8000,
        !(IO_START <= target <= IO_END),
        address < 0x8000,
        !(IO_START <= address <= IO_END),
    ensures
        bus.write_byte(byte, target).read_byte(address, draw) == if address == target {
            byte
        } else {
            bus.read_byte(address, draw)
        },
{
}

/// A word written to RAM below its last byte is the word that the next word
/// read at that address gives.
pub proof fn ram_keeps_written_word(bus: BusView, word: u16, address: u16, draw: u8)
    requires
        bus.wf(),
        address < 0x7fff,
        !(IO_START <= address <= IO_END),
    ensures
        bus.write_word(word, address).read_word(address, draw) == word,
{
}

/// A byte write marks the display as changed exactly if it lands in the
/// displayed memory, from 0x6010 to 0x7010; a mark that is there stays. A
/// write into the register bank's window, from 0x6000 to 0x600f, never
/// marks.
pub proof fn byte_write_marks_display(bus: BusView, byte: u8, address: u16)
    requires
        address != CARTRIDGE_DATA_ADDRESS,
    ensures
        bus.write_byte(byte, address).fbuf_changed == (bus.fbuf_changed || 0x6010 <= address
            <= 0x7010),
{
}

/// A word write marks the display as changed exactly if one of its two
/// bytes lands in the displayed memory.
pub proof fn word_write_marks_display(bus: BusView, word: u16, address: u16)
    ensures
        bus.write_word(word, address).fbuf_changed == (bus.fbuf_changed || 0x6010 <= address
            <= 0x7010 || 0x6010 <= address + 1 <= 0x7010),
{
}

/// A word read at the interrupt latch gives the latch as low byte and the
/// RAM byte behind the register bank's window as high byte, whatever the
/// random source hands out.
pub proof fn latch_word_takes_ram_byte(bus: BusView, draw: u8)
    ensures
        bus.read_word(IO_END, draw) == join(bus.int_adapter.interrupt_id, bus.ram[0x6010]),
{
}

/// A word written at the interrupt latch puts its low byte into the latch
/// and its high byte into the RAM byte behind the register bank's window, so
/// that a word read there gives the word back.
pub proof fn latch_word_round_trip(bus: BusView, word: u16, draw: u8)
    requires
        bus.wf(),
    ensures
        bus.write_word(word, IO_END).int_adapter.interrupt_id == low_byte(word),
        bus.write_word(word, IO_END).ram[0x6010] == high_byte(word),
        bus.write_word(word, IO_END).read_word(IO_END, draw) == word,
{
}

/// Only a read of the random slot, at 0x6009, depends on what the random
/// source hands out; and of the word reads only those that take one of
/// their bytes from it, at 0x6008 and 0x6009.
pub proof fn only_random_slot_is_random(bus: BusView, address: u16, draw: u8, other: u8)
    requires
        address != RANDOM_ADDRESS,
    ensures
        bus.read_byte(address, draw) == bus.read_byte(address, other),
        address != CARTRIDGE_DATA_ADDRESS ==> bus.read_word(address, draw) == bus.read_word(
            address,
            other,
        ),
{
}

// The opcode table.
/// The table gives every operation only addressing modes that it can work
/// with: the branches, and only they, are relative; only a jump is indirect;
/// only shifts and rotates work on the accumulator; an immediate operand is
/// read and never written; and whatever reads or writes an operand has one.
pub proof fn table_is_consistent(opcode: u8)
    ensures
        match instruction_of(opcode) {
            Some(instruction) => {
                let operation = instruction.operation;
                let mode = instruction.mode;
                &&& (mode == Mode::Relative) == operation.is_branch()
                &&& mode == Mode::Indirect ==> operation == Operation::Jmp
                &&& mode == Mode::Accumulator ==> operation == Operation::Asl || operation
                    == Operation::Lsr || operation == Operation::Rol || operation
                    == Operation::Ror
                &&& mode == Mode::Immediate ==> operation.reads_operand()
                    && !operation.writes_operand()
                &&& operation.reads_operand() || operation.writes_operand() ==> mode
                    != Mode::Implied
                &&& (operation == Operation::Jmp || operation == Operation::Jsr) ==> mode
                    == Mode::Absolute || mode == Mode::Indirect
            },
            None => true,
        },
{
}

// The instruction engine.
/// A reset gives the same registers whatever they were before, loads the
/// program counter from the little-endian word at 0xfffc, and changes nothing
/// on the bus. A second reset changes nothing.
pub proof fn reset_is_fixed(machine: Machine)
    ensures
        machine.reset().flags == 0b0011_0100,
        machine.reset().sp == 0xff,
        machine.reset().a == 0 && machine.reset().x == 0 && machine.reset().y == 0,
        machine.reset().pc == join(machine.bus.rom[0x7ffc], machine.bus.rom[0x7ffd]),
        machine.reset().bus == machine.bus,
        machine.reset().reset() == machine.reset(),
{
}

/// Pushing the flags and pulling them again gives the flags back with bits
/// 3 and 4 cleared, whatever they were, and leaves the stack pointer and the
/// other registers as they were.
pub proof fn pulled_flags_lose_two_bits(machine: Machine)
    requires
        machine.bus.wf(),
    ensures
        machine.push_flags().pop_flags().flags == machine.flags & 0b1110_0111,
        machine.push_flags().pop_flags().sp == machine.sp,
        machine.push_flags().pop_flags().pc == machine.pc,
        machine.push_flags().pop_flags().a == machine.a,
        machine.push_flags().pop_flags().x == machine.x,
        machine.push_flags().pop_flags().y == machine.y,
{
    let flags = machine.flags;
    assert((flags | 0b0001_1000) & 0b1110_0111 == flags & 0b1110_0111) by (bit_vector);
}

/// A byte that was pushed is the byte that is pulled, and the stack pointer
/// is back where it was.
pub proof fn pushed_byte_is_pulled(machine: Machine, value: u8)
    requires
        machine.bus.wf(),
    ensures
        machine.push_byte(value).top_byte() == value,
        machine.push_byte(value).drop_byte().sp == machine.sp,
{
}

/// A request for a maskable interrupt while interrupts are disabled changes
/// nothing. A request that is taken disables interrupts, so a second request
/// right after it changes nothing.
pub proof fn second_interrupt_request_is_dropped(machine: Machine)
    ensures
        machine.get_flag(IRQ_DISABLE_FLAG) ==> machine.interrupt_request() == machine,
        machine.interrupt_request().get_flag(IRQ_DISABLE_FLAG),
        machine.interrupt_request().interrupt_request() == machine.interrupt_request(),
{
    if !machine.get_flag(IRQ_DISABLE_FLAG) {
        let flags = machine.enter_handler(machine.pc, INTERRUPT_VECTOR).flags;
        assert((flags | 4) & 4 != 0) by (bit_vector);
    }
}

/// One instruction moves the program counter behind its last byte, that is
/// by one plus the number of operand bytes of its addressing mode, unless it
/// is a jump, a branch, a call, a return or a software interrupt. A byte that
/// is no instruction moves it by one.
pub proof fn step_advances_pc(machine: Machine, draws: Draws)
    ensures
        match instruction_of(machine.bus.read_byte(machine.pc, draws.opcode)) {
            Some(instruction) => !instruction.operation.sets_pc() ==> machine.step(draws).pc
                == machine.pc.wrapping_add((1 + instruction.mode.operand_bytes()) as u16),
            None => machine.step(draws).pc == machine.pc.wrapping_add(1),
        },
{
}

/// An untaken branch moves the program counter behind its two bytes, and a
/// taken one to its target: the address behind the branch plus the operand
/// byte as a signed distance.
pub proof fn branch_moves_pc(machine: Machine, draws: Draws)
    ensures
        match instruction_of(machine.bus.read_byte(machine.pc, draws.opcode)) {
            Some(instruction) => instruction.operation.is_branch() ==> {
                let behind = machine.pc.wrapping_add(2);
                let offset = machine.bus.read_byte(machine.pc.wrapping_add(1), draws.low);
                &&& instruction.mode == Mode::Relative
                &&& machine.step(draws).pc == behind || machine.step(draws).pc == branch_target(
                    behind,
                    offset,
                )
                &&& machine.step(draws) == (Machine { pc: machine.step(draws).pc, ..machine })
            },
            None => true,
        },
{
}

/// The carry that an addition leaves tells whether the sum of accumulator,
/// operand and carry did not fit in a byte.
pub proof fn adc_carries_out(machine: Machine, operand: u8)
    ensures
        machine.adc(operand).a == (machine.a + operand + machine.carry()) % 256,
        machine.adc(operand).get_flag(CARRY_FLAG) == (machine.a + operand + machine.carry()
            > 0xff),
{
    let sum = machine.a + operand + machine.carry();
    let result = (sum % 256) as u8;
    let carried = with_flag(with_zero_negative(machine.flags, result), sum > 0xff, CARRY_FLAG);
    written_flag_reads_back(with_zero_negative(machine.flags, result), sum > 0xff, CARRY_FLAG);
    assert(OVERFLOW_FLAG & CARRY_FLAG == 0) by (bit_vector);
    other_flags_are_kept(
        carried,
        is_negative(machine.a) == is_negative(operand) && is_negative(result) != is_negative(
            operand,
        ),
        OVERFLOW_FLAG,
        CARRY_FLAG,
    );
}

/// Adding an operand and then subtracting it again, with the carry set to
/// `carry_between` in between, leaves the accumulator at what it was, plus
/// the carry that went into the addition, plus the carry that went into the
/// subtraction, minus one, modulo 256. So the pair gives the accumulator
/// back exactly if one of the two carries was set and the other clear, as
/// after a clear-carry before the addition and a set-carry before the
/// subtraction.
pub proof fn sbc_undoes_adc(machine: Machine, operand: u8, carry_between: bool)
    ensures
        ({
            let added = machine.adc(operand);
            let prepared = added.with_flags(with_flag(added.flags, carry_between, CARRY_FLAG));
            let back = prepared.sbc(operand);
            let borrow: int = if carry_between {
                1
            } else {
                0
            };
            &&& back.a == (machine.a + machine.carry() + borrow + 255) % 256
            &&& (back.a == machine.a) == (machine.carry() + borrow == 1)
        }),
{
    let added = machine.adc(operand);
    written_flag_reads_back(added.flags, carry_between, CARRY_FLAG);
    let borrow: int = if carry_between {
        1
    } else {
        0
    };
    let sum = machine.a + operand + machine.carry();
    let difference = added.a + (255 - operand) + borrow;
    assert(added.a == sum || added.a == sum - 256);
    assert(difference == machine.a + machine.carry() + borrow + 255 || difference == machine.a
        + machine.carry() + borrow - 1);
}

/// Adding an operand and subtracting it right away, so that the subtraction
/// takes the carry that the addition left, gives the accumulator back exactly
/// if the sum did not fit in a byte when the carry was clear before, or did
/// fit when it was set.
pub proof fn sbc_after_adc(machine: Machine, operand: u8)
    ensures
        (machine.adc(operand).sbc(operand).a == machine.a) == ((machine.carry() == 1) != (
        machine.a + operand + machine.carry() > 0xff)),
{
    adc_carries_out(machine, operand);
}

/// An instruction that is fetched without a read of the random source does
/// the same whatever the random source would have handed out: the machine
/// is deterministic but for that source.
pub proof fn step_is_deterministic(machine: Machine, draws: Draws, others: Draws)
    requires
        !machine.reads_random(),
    ensures
        machine.fetch(draws) == machine.fetch(others),
        machine.step(draws) == machine.step(others),
{
}

/// No instruction changes ROM or the cartridge image, and none changes the
/// size of RAM: a machine that is well formed stays so.
pub proof fn step_keeps_rom(machine: Machine, draws: Draws)
    requires
        machine.bus.wf(),
    ensures
        machine.step(draws).bus.rom == machine.bus.rom,
        machine.step(draws).bus.int_adapter.rom == machine.bus.int_adapter.rom,
        machine.step(draws).bus.wf(),
{
}

/// Neither a reset nor an interrupt changes ROM or the cartridge image, and
/// none changes the size of RAM.
pub proof fn interrupts_keep_rom(machine: Machine)
    requires
        machine.bus.wf(),
    ensures
        machine.reset().bus == machine.bus,
        machine.interrupt_request().bus.rom == machine.bus.rom,
        machine.interrupt_request().bus.int_adapter == machine.bus.int_adapter,
        machine.interrupt_request().bus.wf(),
        machine.non_maskable_interrupt().bus.rom == machine.bus.rom,
        machine.non_maskable_interrupt().bus.int_adapter == machine.bus.int_adapter,
        machine.non_maskable_interrupt().bus.wf(),
{
}

/// What an interrupt pushes is what a return from the handler pulls: after
/// a non-maskable interrupt and a return right away, the program counter and
/// the stack pointer are what they were, and so are the flags but for bits 3
/// and 4, which are clear.
pub proof fn return_undoes_interrupt(machine: Machine)
    requires
        machine.bus.wf(),
    ensures
        machine.non_maskable_interrupt().return_from_interrupt().pc == machine.pc,
        machine.non_maskable_interrupt().return_from_interrupt().sp == machine.sp,
        machine.non_maskable_interrupt().return_from_interrupt().flags == machine.flags
            & 0b1110_0111,
{
    let flags = machine.flags;
    assert((flags | 0b0001_1000) & 0b1110_0111 == flags & 0b1110_0111) by (bit_vector);
    let pushed = machine.push_word(machine.pc);
    ram_keeps_written_word(machine.bus, machine.pc, pushed.stack_address(), 0);
    join_inverts_split(machine.pc, 0, 0);
}

// The display.
/// A display with all its glyphs can draw whatever the displayed memory
/// holds, and write whatever text.
pub proof fn complete_charset_draws_all(ppu: PpuView, bus: BusView, text: Seq<u8>)
    requires
        ppu.is_complete(),
    ensures
        forall|chr: u8| ppu.has_glyph(chr),
        ppu.can_show(bus),
        ppu.can_write(text),
{
}

/// Drawing the text leaves the glyphs alone and the picture at its full
/// size, and drawing the same text again changes nothing.
pub proof fn drawing_twice_is_drawing_once(ppu: PpuView, bus: BusView)
    requires
        ppu.wf(),
    ensures
        ppu.tick(bus).chars == ppu.chars,
        ppu.tick(bus).wf(),
        ppu.tick(bus).tick(bus) == ppu.tick(bus),
{
    let once = ppu.tick(bus);
    let twice = once.tick(bus);
    assert forall|i: int| 0 <= i < FRAME_SIZE implies twice.frame_buf[i] == once.frame_buf[i] by {
        let px = i % 448;
        let py = i / 448;
        assert(py * 448 + px == i);
    }
    assert(twice.frame_buf =~= once.frame_buf);
}

} // verus!
