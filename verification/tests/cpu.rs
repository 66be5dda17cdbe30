use emu6502::cpu::{
    BREAK_FLAG, CARRY_FLAG, CPU, DEC_MODE_FLAG, IRQ_DISABLE_FLAG, NEGATIVE_FLAG, OVERFLOW_FLAG,
    ZERO_FLAG,
};
use emu6502::machine::{branch_target, Anomaly, Fetched};
use emu6502::mapper::Mapper;
use emu6502::opcodes::{decode, Instruction, Mode, Operation};

const START: u16 = 0x8000;
const IRQ_HANDLER: u16 = 0x9000;
const NMI_HANDLER: u16 = 0xa000;

/// A machine with `program` at the start of ROM, reset so that it runs there.
fn machine(program: &[u8]) -> CPU {
    let mut image = vec![0u8; 0x8000];
    image[..program.len()].copy_from_slice(program);
    image[0x7ffa] = 0x00;
    image[0x7ffb] = 0xa0;
    image[0x7ffc] = 0x00;
    image[0x7ffd] = 0x80;
    image[0x7ffe] = 0x00;
    image[0x7fff] = 0x90;
    let mut cpu = CPU::new(Mapper::new(image));
    cpu.reset();
    cpu
}

fn run(cpu: &mut CPU, instructions: usize) {
    for _ in 0..instructions {
        cpu.tick();
    }
}

#[test]
fn new_cpu_has_zero_registers() {
    let cpu = CPU::new(Mapper::new(vec![1, 2, 3]));
    assert_eq!(cpu.pc, 0);
    assert_eq!(cpu.sp, 0);
    assert_eq!(cpu.a, 0);
    assert_eq!(cpu.x, 0);
    assert_eq!(cpu.y, 0);
    assert_eq!(cpu.flags, 0);
    assert_eq!(cpu.mapper.read_byte(0x8000), 1);
}

#[test]
fn reset_gives_the_start_state() {
    let mut image = vec![0u8; 0x8000];
    image[0x7ffc] = 0xcd;
    image[0x7ffd] = 0xab;
    let mut cpu = CPU::new(Mapper::new(image));
    cpu.reset();
    assert_eq!(cpu.flags, 0b0011_0100);
    assert_eq!(cpu.sp, 0xff);
    assert_eq!(cpu.a, 0);
    assert_eq!(cpu.x, 0);
    assert_eq!(cpu.y, 0);
    assert_eq!(cpu.pc, 0xabcd);
    assert!(cpu.get_flag(IRQ_DISABLE_FLAG));
    assert!(cpu.get_flag(BREAK_FLAG));
    assert!(!cpu.get_flag(CARRY_FLAG));
    assert!(!cpu.get_flag(ZERO_FLAG));
    assert!(!cpu.get_flag(DEC_MODE_FLAG));
    assert!(!cpu.get_flag(OVERFLOW_FLAG));
    assert!(!cpu.get_flag(NEGATIVE_FLAG));
}

#[test]
fn reset_is_idempotent_and_works_at_any_time() {
    let mut cpu = machine(&[0xa9, 0x80, 0xa2, 0x11, 0xa0, 0x22, 0x48, 0x38]);
    run(&mut cpu, 5);
    assert_eq!(cpu.a, 0x80);
    assert_eq!(cpu.x, 0x11);
    assert_eq!(cpu.y, 0x22);
    assert_eq!(cpu.sp, 0xfe);
    assert!(cpu.get_flag(CARRY_FLAG));
    cpu.reset();
    let first = (cpu.pc, cpu.sp, cpu.a, cpu.x, cpu.y, cpu.flags);
    assert_eq!(first, (START, 0xff, 0, 0, 0, 0b0011_0100));
    cpu.reset();
    assert_eq!((cpu.pc, cpu.sp, cpu.a, cpu.x, cpu.y, cpu.flags), first);
    assert_eq!(cpu.mapper.read_byte(0x01fe), 0x80);
}

#[test]
fn get_flag_tests_bits() {
    let mut cpu = machine(&[]);
    cpu.flags = 0b1000_0001;
    assert!(cpu.get_flag(CARRY_FLAG));
    assert!(cpu.get_flag(NEGATIVE_FLAG));
    assert!(!cpu.get_flag(ZERO_FLAG));
    assert!(!cpu.get_flag(OVERFLOW_FLAG));
    assert!(cpu.get_flag(CARRY_FLAG | ZERO_FLAG));
    assert!(!cpu.get_flag(0));
}

#[test]
fn flag_constants() {
    assert_eq!(CARRY_FLAG, 1);
    assert_eq!(ZERO_FLAG, 2);
    assert_eq!(IRQ_DISABLE_FLAG, 4);
    assert_eq!(DEC_MODE_FLAG, 8);
    assert_eq!(BREAK_FLAG, 16);
    assert_eq!(OVERFLOW_FLAG, 64);
    assert_eq!(NEGATIVE_FLAG, 128);
}

#[test]
fn lda_then_sta_reaches_port_b() {
    let mut cpu = machine(&[0xa9, 0x05, 0x8d, 0x00, 0x60]);
    cpu.mapper.fbuf_changed = false;
    cpu.tick();
    cpu.tick();
    assert_eq!(cpu.a, 5);
    assert_eq!(cpu.mapper.int_adapter.port_b, 5);
    assert_eq!(cpu.pc, 0x8005);
    assert!(!cpu.mapper.fbuf_changed);
}

#[test]
fn interrupt_request_pushes_and_jumps() {
    let mut cpu = machine(&[]);
    cpu.flags = 0b0011_0000;
    cpu.pc = 0x8123;
    cpu.interrupt_request();
    assert_eq!(cpu.pc, IRQ_HANDLER);
    assert_eq!(cpu.sp, 0xfc);
    assert_eq!(cpu.mapper.read_byte(0x01fe), 0x81);
    assert_eq!(cpu.mapper.read_byte(0x01fd), 0x23);
    assert_eq!(cpu.mapper.read_byte(0x01fc), 0b0011_1000);
    assert_eq!(cpu.mapper.read_byte(0x01ff), 0);
    assert_eq!(cpu.flags, 0b0011_0100);
    assert!(cpu.get_flag(IRQ_DISABLE_FLAG));
}

#[test]
fn interrupt_request_fills_top_of_stack_page() {
    let mut cpu = machine(&[]);
    cpu.flags = 0b1100_0001;
    cpu.sp = 0x00;
    cpu.pc = 0x8123;
    cpu.interrupt_request();
    assert_eq!(cpu.pc, 0x9000);
    assert_eq!(cpu.mapper.read_word(0xfffe), 0x9000);
    assert_eq!(cpu.sp, 0xfd);
    assert_eq!(cpu.mapper.read_byte(0x01ff), 0x81);
    assert_eq!(cpu.mapper.read_byte(0x01fe), 0x23);
    assert_eq!(cpu.mapper.read_byte(0x01fd), 0b1101_1001);
    assert_eq!(cpu.flags, 0b1100_0101);
}

#[test]
fn second_interrupt_request_is_dropped() {
    let mut cpu = machine(&[]);
    cpu.flags = 0;
    cpu.pc = 0x8123;
    cpu.interrupt_request();
    let after_first = (cpu.pc, cpu.sp, cpu.a, cpu.x, cpu.y, cpu.flags);
    let stack: Vec<u8> = (0x01f0u16..=0x01ff).map(|a| cpu.mapper.read_byte(a)).collect();
    cpu.interrupt_request();
    assert_eq!((cpu.pc, cpu.sp, cpu.a, cpu.x, cpu.y, cpu.flags), after_first);
    let stack_after: Vec<u8> = (0x01f0u16..=0x01ff).map(|a| cpu.mapper.read_byte(a)).collect();
    assert_eq!(stack, stack_after);
}

#[test]
fn interrupt_request_after_reset_is_masked() {
    let mut cpu = machine(&[]);
    cpu.interrupt_request();
    assert_eq!(cpu.pc, START);
    assert_eq!(cpu.sp, 0xff);
    assert_eq!(cpu.flags, 0b0011_0100);
    assert_eq!(cpu.mapper.read_byte(0x01fe), 0);
}

#[test]
fn non_maskable_interrupt_ignores_the_mask() {
    let mut cpu = machine(&[]);
    cpu.pc = 0x8456;
    cpu.non_maskable_interrupt();
    assert_eq!(cpu.pc, NMI_HANDLER);
    assert_eq!(cpu.sp, 0xfc);
    assert_eq!(cpu.mapper.read_byte(0x01fe), 0x84);
    assert_eq!(cpu.mapper.read_byte(0x01fd), 0x56);
    assert_eq!(cpu.mapper.read_byte(0x01fc), 0b0011_1100);
    assert_eq!(cpu.flags, 0b0011_0100);
    cpu.flags = 0;
    cpu.non_maskable_interrupt();
    assert_eq!(cpu.pc, NMI_HANDLER);
    assert_eq!(cpu.sp, 0xf9);
    assert_eq!(cpu.flags, 0);
    assert_eq!(cpu.mapper.read_byte(0x01f9), 0b0001_1000);
    assert_eq!(cpu.mapper.read_word(0x01fa), NMI_HANDLER);
}

#[test]
fn pushed_and_pulled_flags_lose_bits_3_and_4() {
    for flags in [0x00u8, 0xff, 0x18, 0xe7, 0x08, 0x10, 0x34, 0xc3, 0x5a, 0xa5] {
        let mut cpu = machine(&[0x08, 0x28]);
        cpu.flags = flags;
        cpu.tick();
        assert_eq!(cpu.sp, 0xfe);
        assert_eq!(cpu.flags, flags);
        assert_eq!(cpu.mapper.read_byte(0x01fe), flags | 0b0001_1000);
        cpu.tick();
        assert_eq!(cpu.sp, 0xff);
        assert_eq!(cpu.flags, flags & 0b1110_0111);
        assert_eq!(cpu.pc, 0x8002);
    }
}

#[test]
fn pulled_flags_come_from_the_stack() {
    let mut cpu = machine(&[0x28]);
    cpu.mapper.write_byte(0xff, 0x01ff);
    cpu.sp = 0xff;
    cpu.tick();
    assert_eq!(cpu.flags, 0b1110_0111);
    assert_eq!(cpu.sp, 0x00);
}

#[test]
fn every_opcode_advances_pc_by_its_length() {
    let mut cpu = machine(&[]);
    for opcode in 0u16..256 {
        let opcode = opcode as u8;
        cpu.reset();
        cpu.pc = 0x0200;
        cpu.x = 1;
        cpu.y = 2;
        cpu.mapper.write_byte(opcode, 0x0200);
        cpu.mapper.write_byte(0x10, 0x0201);
        cpu.mapper.write_byte(0x03, 0x0202);
        cpu.tick();
        match decode(opcode) {
            None => assert_eq!(cpu.pc, 0x0201),
            Some(instruction) => {
                if !instruction.operation.sets_pc() {
                    assert_eq!(cpu.pc, 0x0201 + instruction.mode.operand_bytes());
                }
            }
        }
    }
}

#[test]
fn opcode_lengths_by_example() {
    let cases: [(&[u8], u16); 8] = [
        (&[0xea], 1),
        (&[0xa9, 0x01], 2),
        (&[0xa5, 0x10], 2),
        (&[0xad, 0x10, 0x02], 3),
        (&[0x2c, 0x10, 0x02], 3),
        (&[0x24, 0x10], 2),
        (&[0x0a], 1),
        (&[0xb1, 0x10], 2),
    ];
    for (program, length) in cases {
        let mut cpu = machine(program);
        cpu.tick();
        assert_eq!(cpu.pc, START + length);
    }
}

#[test]
fn pc_wraps_at_the_end_of_memory() {
    let mut image = vec![0u8; 0x8000];
    image[0x7fff] = 0xea;
    image[0x7ffc] = 0xff;
    image[0x7ffd] = 0xff;
    let mut cpu = CPU::new(Mapper::new(image));
    cpu.reset();
    assert_eq!(cpu.pc, 0xffff);
    cpu.tick();
    assert_eq!(cpu.pc, 0x0000);
}

#[test]
fn unknown_opcode_is_skipped() {
    let mut cpu = machine(&[0x02, 0xff, 0xa9, 0x07]);
    cpu.a = 0x11;
    cpu.x = 0x22;
    cpu.y = 0x33;
    cpu.tick();
    assert_eq!((cpu.pc, cpu.sp, cpu.a, cpu.x, cpu.y, cpu.flags), (0x8001, 0xff, 0x11, 0x22, 0x33, 0x34));
    cpu.tick();
    assert_eq!((cpu.pc, cpu.sp, cpu.a, cpu.x, cpu.y, cpu.flags), (0x8002, 0xff, 0x11, 0x22, 0x33, 0x34));
    cpu.tick();
    assert_eq!(cpu.a, 0x07);
    assert_eq!(cpu.pc, 0x8004);
}

#[test]
fn adc_sbc_inverse_table() {
    let operands = [0x00u8, 0x7f, 0x80, 0xff];
    let accumulators = [0x00u8, 0x01, 0x40, 0x7f, 0x80, 0xfe, 0xff];
    for operand in operands {
        for a in accumulators {
            // Carry clear before the addition, set before the subtraction.
            let mut cpu = machine(&[0x18, 0x69, operand, 0x38, 0xe9, operand]);
            cpu.a = a;
            run(&mut cpu, 4);
            assert_eq!(cpu.a, a);
            // Carry set before the addition, clear before the subtraction.
            let mut cpu = machine(&[0x38, 0x69, operand, 0x18, 0xe9, operand]);
            cpu.a = a;
            run(&mut cpu, 4);
            assert_eq!(cpu.a, a);
            // Carry clear before both: one short.
            let mut cpu = machine(&[0x18, 0x69, operand, 0x18, 0xe9, operand]);
            cpu.a = a;
            run(&mut cpu, 4);
            assert_eq!(cpu.a, a.wrapping_sub(1));
            // Carry set before both: one over.
            let mut cpu = machine(&[0x38, 0x69, operand, 0x38, 0xe9, operand]);
            cpu.a = a;
            run(&mut cpu, 4);
            assert_eq!(cpu.a, a.wrapping_add(1));
        }
    }
}

#[test]
fn adc_sbc_with_carry_left_by_the_addition() {
    // A = 0x40, carry clear before the addition, untouched in between.
    let table = [(0x00u8, 0x40u8, 0x3fu8), (0x7f, 0xbf, 0x3f), (0x80, 0xc0, 0x3f), (0xff, 0x3f, 0x40)];
    for (operand, sum, back) in table {
        let mut cpu = machine(&[0x18, 0x69, operand, 0xe9, operand]);
        cpu.a = 0x40;
        run(&mut cpu, 2);
        assert_eq!(cpu.a, sum);
        cpu.tick();
        assert_eq!(cpu.a, back);
    }
    // A = 0xc0: the sums of 0x80 and 0xff carry out.
    let table = [(0x00u8, 0xc0u8, 0xbfu8), (0x7f, 0x3f, 0xc0), (0x80, 0x40, 0xc0), (0xff, 0xbf, 0xc0)];
    for (operand, sum, back) in table {
        let mut cpu = machine(&[0x18, 0x69, operand, 0xe9, operand]);
        cpu.a = 0xc0;
        run(&mut cpu, 2);
        assert_eq!(cpu.a, sum);
        cpu.tick();
        assert_eq!(cpu.a, back);
    }
    // Carry set before the addition.
    let table = [(0x00u8, 0x41u8, 0x40u8), (0x7f, 0xc0, 0x40), (0x80, 0xc1, 0x40), (0xff, 0x40, 0x41)];
    for (operand, sum, back) in table {
        let mut cpu = machine(&[0x38, 0x69, operand, 0xe9, operand]);
        cpu.a = 0x40;
        run(&mut cpu, 2);
        assert_eq!(cpu.a, sum);
        cpu.tick();
        assert_eq!(cpu.a, back);
    }
}

#[test]
fn adc_sets_carry_overflow_zero_negative() {
    let mut cpu = machine(&[0x69, 0x50]);
    cpu.a = 0x50;
    cpu.tick();
    assert_eq!(cpu.a, 0xa0);
    assert_eq!(cpu.flags, 0xf4);

    let mut cpu = machine(&[0x69, 0x01]);
    cpu.a = 0xff;
    cpu.tick();
    assert_eq!(cpu.a, 0x00);
    assert_eq!(cpu.flags, 0x37);

    let mut cpu = machine(&[0x69, 0x80]);
    cpu.a = 0x80;
    cpu.tick();
    assert_eq!(cpu.a, 0x00);
    assert_eq!(cpu.flags, 0x77);

    let mut cpu = machine(&[0x38, 0x69, 0x10]);
    cpu.a = 0x20;
    run(&mut cpu, 2);
    assert_eq!(cpu.a, 0x31);
    assert_eq!(cpu.flags, 0x34);

    let mut cpu = machine(&[0x69, 0x10]);
    cpu.flags = 0xff;
    cpu.a = 0x20;
    cpu.tick();
    assert_eq!(cpu.a, 0x31);
    assert_eq!(cpu.flags, 0x3c);
}

#[test]
fn adc_ignores_decimal_mode() {
    let mut cpu = machine(&[0xf8, 0x18, 0x69, 0x09]);
    cpu.a = 0x09;
    run(&mut cpu, 3);
    assert_eq!(cpu.a, 0x12);
    assert!(cpu.get_flag(DEC_MODE_FLAG));
}

#[test]
fn sbc_borrows_through_carry() {
    let mut cpu = machine(&[0x38, 0xe9, 0x10]);
    cpu.a = 0x50;
    run(&mut cpu, 2);
    assert_eq!(cpu.a, 0x40);
    assert_eq!(cpu.flags, 0x35);

    let mut cpu = machine(&[0x18, 0xe9, 0x10]);
    cpu.a = 0x50;
    run(&mut cpu, 2);
    assert_eq!(cpu.a, 0x3f);
    assert_eq!(cpu.flags, 0x35);

    let mut cpu = machine(&[0x38, 0xe9, 0x20]);
    cpu.a = 0x10;
    run(&mut cpu, 2);
    assert_eq!(cpu.a, 0xf0);
    assert_eq!(cpu.flags, 0xb4);

    let mut cpu = machine(&[0x38, 0xe9, 0x01]);
    cpu.a = 0x80;
    run(&mut cpu, 2);
    assert_eq!(cpu.a, 0x7f);
    assert_eq!(cpu.flags, 0x75);
}

#[test]
fn compare_sets_carry_when_not_below() {
    let mut cpu = machine(&[0xc9, 0x40, 0xc9, 0x41, 0xc9, 0x30]);
    cpu.a = 0x40;
    cpu.tick();
    assert_eq!(cpu.flags, 0x37);
    cpu.tick();
    assert_eq!(cpu.flags, 0xb4);
    cpu.tick();
    assert_eq!(cpu.flags, 0x35);
    assert_eq!(cpu.a, 0x40);
}

#[test]
fn compare_x_and_y() {
    let mut cpu = machine(&[0xe0, 0x10, 0xc0, 0x10, 0xe4, 0x20, 0xcc, 0x00, 0x03]);
    cpu.x = 0x10;
    cpu.y = 0x0f;
    cpu.mapper.write_byte(0x11, 0x0020);
    cpu.mapper.write_byte(0x0f, 0x0300);
    cpu.tick();
    assert_eq!(cpu.flags, 0x37);
    cpu.tick();
    assert_eq!(cpu.flags, 0xb4);
    cpu.tick();
    assert_eq!(cpu.flags, 0xb4);
    cpu.tick();
    assert_eq!(cpu.flags, 0x37);
    assert_eq!((cpu.x, cpu.y), (0x10, 0x0f));
    assert_eq!(cpu.pc, 0x8009);
}

#[test]
fn all_shifts_move_right() {
    // ASL
    let mut cpu = machine(&[0x0a]);
    cpu.a = 0x81;
    cpu.tick();
    assert_eq!(cpu.a, 0x40);
    assert_eq!(cpu.flags, 0x35);
    // LSR
    let mut cpu = machine(&[0x4a]);
    cpu.a = 0x81;
    cpu.tick();
    assert_eq!(cpu.a, 0x40);
    assert_eq!(cpu.flags, 0x35);
    // ASL of an even value clears the carry.
    let mut cpu = machine(&[0x38, 0x0a]);
    cpu.a = 0x80;
    run(&mut cpu, 2);
    assert_eq!(cpu.a, 0x40);
    assert_eq!(cpu.flags, 0x34);
    // A shift to zero sets Zero.
    let mut cpu = machine(&[0x4a]);
    cpu.a = 0x01;
    cpu.tick();
    assert_eq!(cpu.a, 0x00);
    assert_eq!(cpu.flags, 0x37);
}

#[test]
fn rotates_put_the_old_carry_in() {
    // ROL: old carry into bit 7.
    let mut cpu = machine(&[0x38, 0x2a]);
    cpu.a = 0x02;
    run(&mut cpu, 2);
    assert_eq!(cpu.a, 0x81);
    assert_eq!(cpu.flags, 0xb4);
    let mut cpu = machine(&[0x18, 0x2a]);
    cpu.a = 0x03;
    run(&mut cpu, 2);
    assert_eq!(cpu.a, 0x01);
    assert_eq!(cpu.flags, 0x35);
    // ROR: old carry into bit 0.
    let mut cpu = machine(&[0x38, 0x6a]);
    cpu.a = 0x04;
    run(&mut cpu, 2);
    assert_eq!(cpu.a, 0x03);
    assert_eq!(cpu.flags, 0x34);
    let mut cpu = machine(&[0x38, 0x6a]);
    cpu.a = 0x02;
    run(&mut cpu, 2);
    assert_eq!(cpu.a, 0x01);
    assert_eq!(cpu.flags, 0x34);
    let mut cpu = machine(&[0x18, 0x6a]);
    cpu.a = 0x03;
    run(&mut cpu, 2);
    assert_eq!(cpu.a, 0x01);
    assert_eq!(cpu.flags, 0x35);
}

#[test]
fn shifts_work_on_memory() {
    let mut cpu = machine(&[0x06, 0x10, 0x56, 0x10, 0x2e, 0x00, 0x03, 0x7e, 0xff, 0x02]);
    cpu.x = 1;
    cpu.mapper.write_byte(0x05, 0x0010);
    cpu.mapper.write_byte(0x08, 0x0011);
    cpu.mapper.write_byte(0x10, 0x0300);
    cpu.tick();
    assert_eq!(cpu.mapper.read_byte(0x0010), 0x02);
    assert_eq!(cpu.flags, 0x35);
    cpu.tick();
    assert_eq!(cpu.mapper.read_byte(0x0011), 0x04);
    assert_eq!(cpu.flags, 0x34);
    cpu.flags = 0x35;
    cpu.tick();
    assert_eq!(cpu.mapper.read_byte(0x0300), 0x88);
    assert_eq!(cpu.flags, 0xb4);
    cpu.flags = 0x35;
    cpu.tick();
    assert_eq!(cpu.mapper.read_byte(0x0300), 0x45);
    assert_eq!(cpu.flags, 0x34);
    assert_eq!(cpu.a, 0);
    assert_eq!(cpu.pc, 0x800a);
}

#[test]
fn inc_and_dec_touch_carry() {
    let mut cpu = machine(&[0xe6, 0x10, 0xe6, 0x10, 0xc6, 0x10, 0xc6, 0x10]);
    cpu.mapper.write_byte(0xff, 0x0010);
    cpu.tick();
    assert_eq!(cpu.mapper.read_byte(0x0010), 0x00);
    assert_eq!(cpu.flags, 0x37);
    cpu.tick();
    assert_eq!(cpu.mapper.read_byte(0x0010), 0x01);
    assert_eq!(cpu.flags, 0x34);
    cpu.tick();
    assert_eq!(cpu.mapper.read_byte(0x0010), 0x00);
    assert_eq!(cpu.flags, 0x36);
    cpu.tick();
    assert_eq!(cpu.mapper.read_byte(0x0010), 0xff);
    assert_eq!(cpu.flags, 0xb5);
}

#[test]
fn inc_and_dec_in_other_modes() {
    let mut cpu = machine(&[0xf6, 0x10, 0xee, 0x00, 0x03, 0xfe, 0x00, 0x03, 0xd6, 0x10, 0xce, 0x00, 0x03, 0xde, 0x00, 0x03]);
    cpu.x = 2;
    cpu.mapper.write_byte(0x7f, 0x0012);
    cpu.mapper.write_byte(0x10, 0x0300);
    cpu.mapper.write_byte(0x20, 0x0302);
    run(&mut cpu, 3);
    assert_eq!(cpu.mapper.read_byte(0x0012), 0x80);
    assert_eq!(cpu.mapper.read_byte(0x0300), 0x11);
    assert_eq!(cpu.mapper.read_byte(0x0302), 0x21);
    run(&mut cpu, 3);
    assert_eq!(cpu.mapper.read_byte(0x0012), 0x7f);
    assert_eq!(cpu.mapper.read_byte(0x0300), 0x10);
    assert_eq!(cpu.mapper.read_byte(0x0302), 0x20);
    assert_eq!(cpu.pc, 0x8010);
}

#[test]
fn register_counting_touches_carry() {
    let mut cpu = machine(&[0xe8, 0xe8, 0xca, 0xca, 0xc8, 0x88, 0x88]);
    cpu.x = 0xff;
    cpu.tick();
    assert_eq!(cpu.x, 0x00);
    assert_eq!(cpu.flags, 0x37);
    cpu.tick();
    assert_eq!(cpu.x, 0x01);
    assert_eq!(cpu.flags, 0x34);
    cpu.tick();
    assert_eq!(cpu.x, 0x00);
    assert_eq!(cpu.flags, 0x36);
    cpu.tick();
    assert_eq!(cpu.x, 0xff);
    assert_eq!(cpu.flags, 0xb5);
    cpu.y = 0x7f;
    cpu.tick();
    assert_eq!(cpu.y, 0x80);
    assert_eq!(cpu.flags, 0xb4);
    cpu.tick();
    assert_eq!(cpu.y, 0x7f);
    assert_eq!(cpu.flags, 0x34);
    cpu.y = 0;
    cpu.tick();
    assert_eq!(cpu.y, 0xff);
    assert_eq!(cpu.flags, 0xb5);
}

#[test]
fn bit_copies_bits_6_and_7() {
    let mut cpu = machine(&[0x24, 0x10, 0x2c, 0x00, 0x03, 0x24, 0x11]);
    cpu.a = 0x0f;
    cpu.mapper.write_byte(0xc0, 0x0010);
    cpu.mapper.write_byte(0x01, 0x0300);
    cpu.mapper.write_byte(0x40, 0x0011);
    cpu.tick();
    assert_eq!(cpu.flags, 0xf6);
    assert_eq!(cpu.pc, 0x8002);
    cpu.tick();
    assert_eq!(cpu.flags, 0x34);
    assert_eq!(cpu.pc, 0x8005);
    cpu.tick();
    assert_eq!(cpu.flags, 0x76);
    assert_eq!(cpu.a, 0x0f);
}

#[test]
fn logic_operations() {
    let mut cpu = machine(&[0x29, 0x0f, 0x09, 0x80, 0x49, 0xff, 0x29, 0x00]);
    cpu.a = 0x3c;
    cpu.tick();
    assert_eq!(cpu.a, 0x0c);
    assert_eq!(cpu.flags, 0x34);
    cpu.tick();
    assert_eq!(cpu.a, 0x8c);
    assert_eq!(cpu.flags, 0xb4);
    cpu.tick();
    assert_eq!(cpu.a, 0x73);
    assert_eq!(cpu.flags, 0x34);
    cpu.tick();
    assert_eq!(cpu.a, 0x00);
    assert_eq!(cpu.flags, 0x36);
}

#[test]
fn logic_operations_in_memory_modes() {
    let mut cpu = machine(&[
        0x25, 0x10, 0x35, 0x10, 0x2d, 0x00, 0x03, 0x3d, 0x00, 0x03, 0x39, 0x00, 0x03, 0x21, 0x20,
        0x31, 0x30,
    ]);
    cpu.x = 1;
    cpu.y = 2;
    cpu.mapper.write_byte(0xfe, 0x0010);
    cpu.mapper.write_byte(0xfd, 0x0011);
    cpu.mapper.write_byte(0xfb, 0x0300);
    cpu.mapper.write_byte(0xf7, 0x0301);
    cpu.mapper.write_byte(0xef, 0x0302);
    cpu.mapper.write_word(0x0400, 0x0021);
    cpu.mapper.write_word(0x0500, 0x0030);
    cpu.mapper.write_byte(0xdf, 0x0400);
    cpu.mapper.write_byte(0xbf, 0x0502);
    cpu.a = 0xff;
    cpu.tick();
    assert_eq!(cpu.a, 0xfe);
    cpu.tick();
    assert_eq!(cpu.a, 0xfc);
    cpu.tick();
    assert_eq!(cpu.a, 0xf8);
    cpu.tick();
    assert_eq!(cpu.a, 0xf0);
    cpu.tick();
    assert_eq!(cpu.a, 0xe0);
    cpu.tick();
    assert_eq!(cpu.a, 0xc0);
    cpu.tick();
    assert_eq!(cpu.a, 0x80);
    assert_eq!(cpu.pc, 0x8011);
}

#[test]
fn lda_in_every_mode() {
    let mut cpu = machine(&[
        0xa9, 0x01, 0xa5, 0x10, 0xb5, 0x10, 0xad, 0x00, 0x03, 0xbd, 0x00, 0x03, 0xb9, 0x00, 0x03,
        0xa1, 0x20, 0xb1, 0x30,
    ]);
    cpu.x = 4;
    cpu.y = 8;
    cpu.mapper.write_byte(0x02, 0x0010);
    cpu.mapper.write_byte(0x03, 0x0014);
    cpu.mapper.write_byte(0x04, 0x0300);
    cpu.mapper.write_byte(0x05, 0x0304);
    cpu.mapper.write_byte(0x06, 0x0308);
    cpu.mapper.write_word(0x0410, 0x0024);
    cpu.mapper.write_byte(0x07, 0x0410);
    cpu.mapper.write_word(0x0520, 0x0030);
    cpu.mapper.write_byte(0x08, 0x0528);
    for expected in 1u8..=8 {
        cpu.tick();
        assert_eq!(cpu.a, expected);
    }
    assert_eq!(cpu.pc, 0x8013);
}

#[test]
fn lda_sets_zero_and_negative() {
    let mut cpu = machine(&[0xa9, 0x00, 0xa9, 0x80, 0xa9, 0x7f]);
    cpu.tick();
    assert_eq!(cpu.flags, 0x36);
    cpu.tick();
    assert_eq!(cpu.flags, 0xb4);
    cpu.tick();
    assert_eq!(cpu.flags, 0x34);
}

#[test]
fn immediate_ldx_and_ldy_leave_flags() {
    let mut cpu = machine(&[0xa2, 0x00, 0xa0, 0x80, 0xa2, 0x80, 0xa0, 0x00]);
    cpu.tick();
    assert_eq!(cpu.x, 0x00);
    assert_eq!(cpu.flags, 0x34);
    cpu.tick();
    assert_eq!(cpu.y, 0x80);
    assert_eq!(cpu.flags, 0x34);
    cpu.flags = 0xb6;
    cpu.tick();
    assert_eq!(cpu.x, 0x80);
    assert_eq!(cpu.flags, 0xb6);
    cpu.tick();
    assert_eq!(cpu.y, 0x00);
    assert_eq!(cpu.flags, 0xb6);
}

#[test]
fn ldx_and_ldy_from_memory_set_flags() {
    let mut cpu = machine(&[
        0xa6, 0x10, 0xb6, 0x10, 0xae, 0x00, 0x03, 0xbe, 0x00, 0x03, 0xa4, 0x10, 0xb4, 0x10, 0xac,
        0x00, 0x03, 0xbc, 0x00, 0x03,
    ]);
    cpu.mapper.write_byte(0x00, 0x0010);
    cpu.mapper.write_byte(0x81, 0x0012);
    cpu.mapper.write_byte(0x03, 0x0013);
    cpu.mapper.write_byte(0x04, 0x0300);
    cpu.mapper.write_byte(0x85, 0x0302);
    cpu.mapper.write_byte(0x06, 0x0304);
    cpu.y = 2;
    cpu.tick();
    assert_eq!((cpu.x, cpu.flags), (0x00, 0x36));
    cpu.tick();
    assert_eq!((cpu.x, cpu.flags), (0x81, 0xb4));
    cpu.tick();
    assert_eq!((cpu.x, cpu.flags), (0x04, 0x34));
    cpu.tick();
    assert_eq!((cpu.x, cpu.flags), (0x85, 0xb4));
    cpu.x = 3;
    cpu.tick();
    assert_eq!((cpu.y, cpu.flags), (0x00, 0x36));
    cpu.tick();
    assert_eq!((cpu.y, cpu.flags), (0x03, 0x34));
    cpu.tick();
    assert_eq!((cpu.y, cpu.flags), (0x04, 0x34));
    cpu.x = 4;
    cpu.tick();
    assert_eq!((cpu.y, cpu.flags), (0x06, 0x34));
}

#[test]
fn zero_page_index_wraps_inside_page_zero() {
    let mut cpu = machine(&[0xb5, 0xf0, 0xb6, 0xf0, 0x95, 0xff, 0xb4, 0x80]);
    cpu.mapper.write_byte(0x11, 0x0010);
    cpu.mapper.write_byte(0x22, 0x0020);
    cpu.mapper.write_byte(0x99, 0x0110);
    cpu.mapper.write_byte(0x99, 0x0120);
    cpu.x = 0x20;
    cpu.y = 0x30;
    cpu.tick();
    assert_eq!(cpu.a, 0x11);
    cpu.tick();
    assert_eq!(cpu.x, 0x22);
    cpu.x = 0x02;
    cpu.a = 0x77;
    cpu.tick();
    assert_eq!(cpu.mapper.read_byte(0x0001), 0x77);
    assert_eq!(cpu.mapper.read_byte(0x0101), 0x00);
    cpu.x = 0x90;
    cpu.y = 0x00;
    cpu.tick();
    assert_eq!(cpu.y, 0x11);
}

#[test]
fn absolute_index_wraps_at_sixteen_bits() {
    let mut cpu = machine(&[0xbd, 0xff, 0xff, 0xb9, 0xfe, 0xff]);
    cpu.mapper.write_byte(0x42, 0x0001);
    cpu.mapper.write_byte(0x43, 0x0003);
    cpu.x = 2;
    cpu.y = 5;
    cpu.tick();
    assert_eq!(cpu.a, 0x42);
    cpu.tick();
    assert_eq!(cpu.a, 0x43);
}

#[test]
fn indirect_modes_follow_zero_page_pointers() {
    let mut cpu = machine(&[0xa1, 0xfe, 0xb1, 0x40, 0x81, 0x50, 0x91, 0x60]);
    cpu.mapper.write_word(0x0234, 0x0002);
    cpu.mapper.write_byte(0x5a, 0x0234);
    cpu.mapper.write_word(0x02ff, 0x0040);
    cpu.mapper.write_byte(0x6b, 0x0301);
    cpu.mapper.write_word(0x0400, 0x0054);
    cpu.mapper.write_word(0xffff, 0x0060);
    cpu.x = 4;
    cpu.y = 2;
    cpu.tick();
    assert_eq!(cpu.a, 0x5a);
    cpu.tick();
    assert_eq!(cpu.a, 0x6b);
    cpu.a = 0x7c;
    cpu.tick();
    assert_eq!(cpu.mapper.read_byte(0x0400), 0x7c);
    cpu.a = 0x8d;
    cpu.tick();
    assert_eq!(cpu.mapper.read_byte(0x0001), 0x8d);
    assert_eq!(cpu.pc, 0x8008);
}

#[test]
fn stores_in_every_mode() {
    let mut cpu = machine(&[
        0x85, 0x10, 0x95, 0x10, 0x8d, 0x00, 0x03, 0x9d, 0x00, 0x03, 0x99, 0x00, 0x03, 0x86, 0x20,
        0x96, 0x20, 0x8e, 0x10, 0x03, 0x84, 0x30, 0x94, 0x30, 0x8c, 0x20, 0x03,
    ]);
    cpu.a = 0xaa;
    cpu.x = 0x01;
    cpu.y = 0x02;
    cpu.flags = 0xc3;
    run(&mut cpu, 11);
    assert_eq!(cpu.mapper.read_byte(0x0010), 0xaa);
    assert_eq!(cpu.mapper.read_byte(0x0011), 0xaa);
    assert_eq!(cpu.mapper.read_byte(0x0300), 0xaa);
    assert_eq!(cpu.mapper.read_byte(0x0301), 0xaa);
    assert_eq!(cpu.mapper.read_byte(0x0302), 0xaa);
    assert_eq!(cpu.mapper.read_byte(0x0020), 0x01);
    assert_eq!(cpu.mapper.read_byte(0x0022), 0x01);
    assert_eq!(cpu.mapper.read_byte(0x0310), 0x01);
    assert_eq!(cpu.mapper.read_byte(0x0030), 0x02);
    assert_eq!(cpu.mapper.read_byte(0x0031), 0x02);
    assert_eq!(cpu.mapper.read_byte(0x0320), 0x02);
    assert_eq!(cpu.flags, 0xc3);
    assert_eq!(cpu.pc, 0x801b);
}

#[test]
fn store_to_rom_is_ignored() {
    let mut cpu = machine(&[0xa9, 0x55, 0x8d, 0x00, 0x80, 0x8d, 0xff, 0xff]);
    run(&mut cpu, 3);
    assert_eq!(cpu.mapper.read_byte(0x8000), 0xa9);
    assert_eq!(cpu.mapper.read_byte(0xffff), 0x90);
    assert_eq!(cpu.pc, 0x8008);
}

#[test]
fn store_to_framebuffer_marks_display() {
    let mut cpu = machine(&[0xa9, 0x41, 0x8d, 0x10, 0x60]);
    cpu.mapper.fbuf_changed = false;
    cpu.tick();
    assert!(!cpu.mapper.fbuf_changed);
    cpu.tick();
    assert!(cpu.mapper.fbuf_changed);
    assert_eq!(cpu.mapper.read_byte(0x6010), 0x41);
}

#[test]
fn transfers_between_registers() {
    let mut cpu = machine(&[0xaa, 0xa8, 0xba, 0x8a, 0x98, 0x9a]);
    cpu.a = 0x80;
    cpu.tick();
    assert_eq!((cpu.x, cpu.flags), (0x80, 0xb4));
    cpu.a = 0x00;
    cpu.tick();
    assert_eq!((cpu.y, cpu.flags), (0x00, 0x36));
    cpu.tick();
    assert_eq!((cpu.x, cpu.flags), (0xff, 0xb4));
    cpu.x = 0x12;
    cpu.tick();
    assert_eq!((cpu.a, cpu.flags), (0x12, 0x34));
    cpu.y = 0x00;
    cpu.tick();
    assert_eq!((cpu.a, cpu.flags), (0x00, 0x36));
    cpu.x = 0x80;
    cpu.tick();
    assert_eq!((cpu.sp, cpu.flags), (0x80, 0x36));
}

#[test]
fn flag_instructions() {
    let mut cpu = machine(&[0x38, 0xf8, 0x58, 0x18, 0xd8, 0x78, 0xb8]);
    cpu.flags = 0x34;
    cpu.tick();
    assert_eq!(cpu.flags, 0x35);
    cpu.tick();
    assert_eq!(cpu.flags, 0x3d);
    cpu.tick();
    assert_eq!(cpu.flags, 0x39);
    cpu.tick();
    assert_eq!(cpu.flags, 0x38);
    cpu.tick();
    assert_eq!(cpu.flags, 0x30);
    cpu.tick();
    assert_eq!(cpu.flags, 0x34);
    cpu.flags = 0xff;
    cpu.tick();
    assert_eq!(cpu.flags, 0xbf);
    assert_eq!(cpu.pc, 0x8007);
}

#[test]
fn push_and_pull_accumulator() {
    let mut cpu = machine(&[0x48, 0xa9, 0x00, 0x68]);
    cpu.a = 0x80;
    cpu.tick();
    assert_eq!(cpu.sp, 0xfe);
    assert_eq!(cpu.mapper.read_byte(0x01fe), 0x80);
    cpu.tick();
    assert_eq!(cpu.flags, 0x36);
    cpu.tick();
    assert_eq!(cpu.a, 0x80);
    assert_eq!(cpu.sp, 0xff);
    assert_eq!(cpu.flags, 0x36);
}

#[test]
fn stack_pointer_wraps() {
    let mut cpu = machine(&[0x48, 0x48, 0x68, 0x68]);
    cpu.sp = 0x01;
    cpu.a = 0x11;
    cpu.tick();
    assert_eq!(cpu.sp, 0x00);
    assert_eq!(cpu.mapper.read_byte(0x0100), 0x11);
    cpu.a = 0x22;
    cpu.tick();
    assert_eq!(cpu.sp, 0xff);
    assert_eq!(cpu.mapper.read_byte(0x01ff), 0x22);
    cpu.a = 0;
    cpu.tick();
    assert_eq!((cpu.a, cpu.sp), (0x22, 0x00));
    cpu.tick();
    assert_eq!((cpu.a, cpu.sp), (0x11, 0x01));
}

#[test]
fn jsr_and_rts() {
    let mut program = vec![0u8; 0x40];
    program[0] = 0x20;
    program[1] = 0x20;
    program[2] = 0x80;
    program[3] = 0xea;
    program[0x20] = 0x60;
    let mut cpu = machine(&program);
    cpu.tick();
    assert_eq!(cpu.pc, 0x8020);
    assert_eq!(cpu.sp, 0xfd);
    assert_eq!(cpu.mapper.read_byte(0x01fd), 0x03);
    assert_eq!(cpu.mapper.read_byte(0x01fe), 0x80);
    cpu.tick();
    assert_eq!(cpu.pc, 0x8003);
    assert_eq!(cpu.sp, 0xff);
    assert_eq!(cpu.flags, 0x34);
}

#[test]
fn jumps() {
    let mut cpu = machine(&[0x4c, 0x34, 0x12]);
    cpu.tick();
    assert_eq!(cpu.pc, 0x1234);
    let mut cpu = machine(&[0x6c, 0x00, 0x03]);
    cpu.mapper.write_word(0xbeef, 0x0300);
    cpu.tick();
    assert_eq!(cpu.pc, 0xbeef);
    let mut cpu = machine(&[0x6c, 0xfe, 0xff]);
    cpu.tick();
    assert_eq!(cpu.pc, 0x9000);
}

#[test]
fn indirect_jump_through_the_latch() {
    let mut cpu = machine(&[0x6c, 0x0f, 0x60]);
    cpu.mapper.int_adapter.interrupt_id = 0x34;
    cpu.mapper.write_byte(0x12, 0x6010);
    cpu.tick();
    assert_eq!(cpu.pc, 0x1234);
}

#[test]
fn branches_taken_and_not_taken() {
    // (opcode, flag, taken when set)
    let branches = [
        (0xf0u8, ZERO_FLAG, true),
        (0xd0, ZERO_FLAG, false),
        (0xb0, CARRY_FLAG, true),
        (0x90, CARRY_FLAG, false),
        (0x30, NEGATIVE_FLAG, true),
        (0x10, NEGATIVE_FLAG, false),
        (0x70, OVERFLOW_FLAG, true),
        (0x50, OVERFLOW_FLAG, false),
    ];
    for (opcode, flag, when_set) in branches {
        for set in [false, true] {
            let mut cpu = machine(&[opcode, 0x05]);
            cpu.flags = if set { flag } else { !flag };
            let flags = cpu.flags;
            cpu.tick();
            if set == when_set {
                assert_eq!(cpu.pc, 0x8007);
            } else {
                assert_eq!(cpu.pc, 0x8002);
            }
            assert_eq!(cpu.flags, flags);
            assert_eq!(cpu.sp, 0xff);
        }
    }
}

#[test]
fn branch_offsets_are_signed() {
    let cases = [(0x00u8, 0x8002u16), (0x7f, 0x8081), (0x80, 0x7f82), (0xfe, 0x8000), (0xff, 0x8001)];
    for (offset, target) in cases {
        let mut cpu = machine(&[0xf0, offset]);
        cpu.flags = ZERO_FLAG;
        cpu.tick();
        assert_eq!(cpu.pc, target);
    }
}

#[test]
fn branch_target_wraps() {
    let mut cpu = machine(&[]);
    cpu.mapper.write_byte(0xd0, 0x0000);
    cpu.mapper.write_byte(0xf0, 0x0001);
    cpu.pc = 0x0000;
    cpu.flags = 0;
    cpu.tick();
    assert_eq!(cpu.pc, 0xfff2);
}

#[test]
fn brk_enters_the_interrupt_handler() {
    let mut cpu = machine(&[0x58, 0x00]);
    cpu.tick();
    assert_eq!(cpu.flags, 0x30);
    cpu.tick();
    assert_eq!(cpu.pc, IRQ_HANDLER);
    assert_eq!(cpu.sp, 0xfc);
    assert_eq!(cpu.mapper.read_byte(0x01fd), 0x03);
    assert_eq!(cpu.mapper.read_byte(0x01fe), 0x80);
    assert_eq!(cpu.mapper.read_byte(0x01fc), 0x38);
    assert_eq!(cpu.flags, 0x34);
}

#[test]
fn brk_sets_break_and_irq_disable() {
    let mut cpu = machine(&[0x00]);
    cpu.flags = 0x00;
    cpu.tick();
    assert_eq!(cpu.flags, 0x14);
    assert_eq!(cpu.mapper.read_byte(0x01fc), 0x18);
}

#[test]
fn brk_with_interrupts_disabled_does_nothing() {
    let mut cpu = machine(&[0x00, 0xea]);
    cpu.tick();
    assert_eq!(cpu.pc, 0x8001);
    assert_eq!(cpu.sp, 0xff);
    assert_eq!(cpu.flags, 0x34);
    assert_eq!(cpu.mapper.read_byte(0x01fe), 0);
}

#[test]
fn rti_returns_behind_brk() {
    let mut image = vec![0u8; 0x8000];
    image[0] = 0x58;
    image[1] = 0x00;
    image[2] = 0xff;
    image[3] = 0xa9;
    image[4] = 0x07;
    image[0x1000] = 0x40;
    image[0x7ffc] = 0x00;
    image[0x7ffd] = 0x80;
    image[0x7ffe] = 0x00;
    image[0x7fff] = 0x90;
    let mut cpu = CPU::new(Mapper::new(image));
    cpu.reset();
    run(&mut cpu, 2);
    assert_eq!(cpu.pc, 0x9000);
    cpu.tick();
    assert_eq!(cpu.pc, 0x8003);
    assert_eq!(cpu.sp, 0xff);
    assert_eq!(cpu.flags, 0x20);
    cpu.tick();
    assert_eq!(cpu.a, 0x07);
}

#[test]
fn rti_returns_from_an_interrupt_request() {
    let mut image = vec![0u8; 0x8000];
    image[0x1000] = 0x40;
    image[0x7ffe] = 0x00;
    image[0x7fff] = 0x90;
    let mut cpu = CPU::new(Mapper::new(image));
    cpu.reset();
    cpu.pc = 0x8123;
    cpu.flags = 0xc3;
    cpu.interrupt_request();
    assert_eq!(cpu.pc, 0x9000);
    assert_eq!(cpu.flags, 0xc7);
    cpu.tick();
    assert_eq!(cpu.pc, 0x8123);
    assert_eq!(cpu.flags, 0xc3);
    assert_eq!(cpu.sp, 0xff);
}

#[test]
fn nop_changes_only_pc() {
    let mut cpu = machine(&[0xea]);
    cpu.a = 1;
    cpu.x = 2;
    cpu.y = 3;
    cpu.flags = 0xa5;
    cpu.tick();
    assert_eq!((cpu.pc, cpu.sp, cpu.a, cpu.x, cpu.y, cpu.flags), (0x8001, 0xff, 1, 2, 3, 0xa5));
}

#[test]
fn lda_from_random_register() {
    let mut cpu = machine(&[0xad, 0x09, 0x60, 0x4c, 0x00, 0x80]);
    let mut differ = false;
    let mut last = None;
    for _ in 0..2000 {
        cpu.tick();
        assert!(cpu.a < 0xff);
        assert_eq!(cpu.get_flag(ZERO_FLAG), cpu.a == 0);
        assert_eq!(cpu.get_flag(NEGATIVE_FLAG), cpu.a >= 0x80);
        if let Some(previous) = last {
            if previous != cpu.a {
                differ = true;
            }
        }
        last = Some(cpu.a);
        cpu.tick();
        assert_eq!(cpu.pc, START);
    }
    assert!(differ);
}

#[test]
fn fetch_reads_without_changing() {
    let mut cpu = machine(&[0xa9, 0x05, 0xbd, 0x00, 0x03, 0xf0, 0xfe, 0x02]);
    cpu.x = 4;
    cpu.mapper.write_byte(0x77, 0x0304);
    let fetched = cpu.fetch();
    assert_eq!(
        fetched,
        Fetched {
            opcode: 0xa9,
            instruction: Some(Instruction { operation: Operation::Lda, mode: Mode::Immediate }),
            next_pc: 0x8002,
            address: 0x8001,
            value: 0x05,
        }
    );
    assert_eq!((cpu.pc, cpu.a, cpu.flags), (START, 0, 0x34));
    cpu.execute(fetched);
    assert_eq!((cpu.pc, cpu.a, cpu.flags), (0x8002, 5, 0x34));
    let fetched = cpu.fetch();
    assert_eq!(
        fetched,
        Fetched {
            opcode: 0xbd,
            instruction: Some(Instruction { operation: Operation::Lda, mode: Mode::AbsoluteX }),
            next_pc: 0x8005,
            address: 0x0304,
            value: 0x77,
        }
    );
    cpu.execute(fetched);
    assert_eq!(cpu.a, 0x77);
    let fetched = cpu.fetch();
    assert_eq!(
        fetched,
        Fetched {
            opcode: 0xf0,
            instruction: Some(Instruction { operation: Operation::Beq, mode: Mode::Relative }),
            next_pc: 0x8007,
            address: 0x8005,
            value: 0,
        }
    );
    cpu.execute(fetched);
    assert_eq!(cpu.pc, 0x8007);
    let fetched = cpu.fetch();
    assert_eq!(
        fetched,
        Fetched { opcode: 0x02, instruction: None, next_pc: 0x8008, address: 0, value: 0 }
    );
    cpu.execute(fetched);
    assert_eq!(cpu.pc, 0x8008);
}

#[test]
fn execute_takes_any_fetched_instruction() {
    let mut cpu = machine(&[]);
    cpu.a = 0x10;
    cpu.execute(Fetched {
        opcode: 0x69,
        instruction: Some(Instruction { operation: Operation::Adc, mode: Mode::Immediate }),
        next_pc: 0x1234,
        address: 0,
        value: 0x22,
    });
    assert_eq!(cpu.a, 0x32);
    assert_eq!(cpu.pc, 0x1234);
    cpu.execute(Fetched {
        opcode: 0x8d,
        instruction: Some(Instruction { operation: Operation::Sta, mode: Mode::Absolute }),
        next_pc: 0x1237,
        address: 0x0400,
        value: 0,
    });
    assert_eq!(cpu.mapper.read_byte(0x0400), 0x32);
    assert_eq!(cpu.pc, 0x1237);
}

#[test]
fn store_to_cartridge_data_is_fatal() {
    let mut cpu = machine(&[0xa9, 0x07, 0x8d, 0x08, 0x60]);
    assert!(cpu.try_tick());
    assert_eq!(cpu.a, 7);
    let fetched = cpu.fetch();
    assert!(fetched.is_fatal());
    assert!(!cpu.try_tick());
    assert_eq!((cpu.pc, cpu.sp, cpu.a, cpu.x, cpu.y, cpu.flags), (0x8002, 0xff, 7, 0, 0, 0x34));
    assert_eq!(cpu.mapper.read_byte(0x6008), 0);
}

#[test]
fn only_stores_to_cartridge_data_are_fatal() {
    let fatal: [&[u8]; 6] = [
        &[0x8d, 0x08, 0x60],
        &[0x8e, 0x08, 0x60],
        &[0x8c, 0x08, 0x60],
        &[0xee, 0x08, 0x60],
        &[0xce, 0x08, 0x60],
        &[0x0e, 0x08, 0x60],
    ];
    for program in fatal {
        let mut cpu = machine(program);
        assert!(cpu.fetch().is_fatal());
        assert!(!cpu.try_tick());
        assert_eq!(cpu.pc, START);
    }
    let harmless: [&[u8]; 6] = [
        &[0xad, 0x08, 0x60],
        &[0xcd, 0x08, 0x60],
        &[0x8d, 0x07, 0x60],
        &[0x8d, 0x09, 0x60],
        &[0x0a],
        &[0x4c, 0x08, 0x60],
    ];
    for program in harmless {
        let mut cpu = machine(program);
        assert!(!cpu.fetch().is_fatal());
        assert!(cpu.try_tick());
        assert!(cpu.pc != START);
    }
}

#[test]
fn try_tick_runs_like_tick() {
    let program = [0xa9, 0x05, 0x18, 0x69, 0x03, 0x8d, 0x00, 0x02, 0xe8, 0x4c, 0x00, 0x80];
    let mut ticked = machine(&program);
    let mut tried = machine(&program);
    for _ in 0..12 {
        ticked.tick();
        assert!(tried.try_tick());
        assert_eq!(
            (ticked.pc, ticked.sp, ticked.a, ticked.x, ticked.y, ticked.flags),
            (tried.pc, tried.sp, tried.a, tried.x, tried.y, tried.flags)
        );
    }
    assert_eq!(ticked.mapper.read_byte(0x0200), 0x08);
    assert_eq!(tried.mapper.read_byte(0x0200), 0x08);
    assert_eq!(ticked.x, 2);
}

#[test]
fn program_counts_down_in_a_loop() {
    // LDX #3; loop: DEX; BNE loop; STX $0200
    let mut cpu = machine(&[0xa2, 0x03, 0xca, 0xd0, 0xfd, 0x8e, 0x00, 0x02]);
    cpu.mapper.write_byte(0xff, 0x0200);
    run(&mut cpu, 8);
    assert_eq!(cpu.x, 0);
    assert_eq!(cpu.mapper.read_byte(0x0200), 0);
    assert_eq!(cpu.pc, 0x8008);
}

#[test]
fn branch_target_adds_a_signed_byte() {
    assert_eq!(branch_target(0x8002, 0x00), 0x8002);
    assert_eq!(branch_target(0x8002, 0x05), 0x8007);
    assert_eq!(branch_target(0x8002, 0x7f), 0x8081);
    assert_eq!(branch_target(0x8002, 0x80), 0x7f82);
    assert_eq!(branch_target(0x8002, 0xff), 0x8001);
    assert_eq!(branch_target(0x0002, 0xf0), 0xfff2);
    assert_eq!(branch_target(0xfff0, 0x7f), 0x006f);
}

#[test]
fn anomalies_of_fetched_instructions() {
    let cases: [(&[u8], Option<Anomaly>); 14] = [
        (&[0x02], Some(Anomaly::UnknownOpcode)),
        (&[0xff], Some(Anomaly::UnknownOpcode)),
        (&[0x8d, 0x00, 0x80], Some(Anomaly::RomWrite)),
        (&[0xee, 0xff, 0xff], Some(Anomaly::RomWrite)),
        (&[0x8d, 0x09, 0x60], Some(Anomaly::RandomWrite)),
        (&[0x8d, 0x0a, 0x60], Some(Anomaly::NoSuchSlot)),
        (&[0x8e, 0x0e, 0x60], Some(Anomaly::NoSuchSlot)),
        (&[0xad, 0x0c, 0x60], Some(Anomaly::NoSuchSlot)),
        (&[0xad, 0x09, 0x60], None),
        (&[0xad, 0x00, 0x80], None),
        (&[0x8d, 0x0f, 0x60], None),
        (&[0x8d, 0xff, 0x7f], None),
        (&[0x4c, 0x0a, 0x60], None),
        (&[0xea], None),
    ];
    for (program, anomaly) in cases {
        let cpu = machine(program);
        let fetched = cpu.fetch();
        assert_eq!(fetched.anomaly(), anomaly);
        assert_eq!(fetched.opcode, program[0]);
        assert_eq!(fetched.misses_slot(), anomaly == Some(Anomaly::NoSuchSlot));
    }
}

#[test]
fn anomalous_instructions_do_no_harm() {
    let mut cpu = machine(&[0xa9, 0x55, 0x8d, 0x09, 0x60, 0x8d, 0x0b, 0x60, 0xad, 0x0b, 0x60]);
    cpu.mapper.fbuf_changed = false;
    run(&mut cpu, 3);
    assert_eq!(cpu.a, 0x55);
    assert_eq!(cpu.flags, 0x34);
    assert_eq!(cpu.mapper.int_adapter.port_a, 0);
    assert_eq!(cpu.mapper.int_adapter.port_b, 0);
    assert_eq!(cpu.mapper.int_adapter.interrupt_id, 0);
    assert_eq!(cpu.mapper.int_adapter.rom_ptr(), 0);
    assert!(!cpu.mapper.fbuf_changed);
    cpu.tick();
    assert_eq!(cpu.a, 0);
    assert_eq!(cpu.flags, 0x36);
    assert_eq!(cpu.pc, 0x800b);
}

#[test]
fn lda_from_cartridge_data() {
    let mut cpu = machine(&[0xad, 0x08, 0x60, 0xa9, 0x01, 0x8d, 0x05, 0x60, 0xad, 0x08, 0x60]);
    cpu.mapper.int_adapter.load_cartridge(vec![0x91, 0x7e]);
    cpu.tick();
    assert_eq!(cpu.a, 0x91);
    assert_eq!(cpu.flags, 0xb4);
    run(&mut cpu, 3);
    assert_eq!(cpu.a, 0x7e);
    assert_eq!(cpu.mapper.int_adapter.rom_ptr(), 1);
}
