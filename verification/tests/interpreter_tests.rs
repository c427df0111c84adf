use res_core::cpu::CpuError;
use res_core::cpu::Mem;
use res_core::cpu::StepOutcome;
use res_core::cpu::CPU;
use res_core::flags::CpuFlags;

fn cpu_with(program: Vec<u8>) -> CPU {
    let mut cpu = CPU::new();
    cpu.load(program);
    cpu.reset();
    cpu
}

#[test]
fn reset_sets_registers_status_and_program_counter() {
    let mut cpu = CPU::new();
    cpu.register_a = 0x11;
    cpu.register_x = 0x22;
    cpu.register_y = 0x33;
    cpu.stack_pointer = 0x44;
    cpu.status = CpuFlags::from_bits_truncate(0xFF);
    cpu.cycles = 99;
    cpu.mem_write(0xFFFC, 0xCD);
    cpu.mem_write(0xFFFD, 0xAB);
    cpu.mem_write(0x0010, 0x77);

    cpu.reset();

    assert_eq!(cpu.register_a, 0);
    assert_eq!(cpu.register_x, 0);
    assert_eq!(cpu.register_y, 0);
    assert_eq!(cpu.stack_pointer, 0xFD);
    assert_eq!(cpu.status.bits(), 0b0010_0100);
    assert_eq!(cpu.total_cycles(), 0);
    assert_eq!(cpu.program_counter, 0xABCD);
    assert_eq!(cpu.mem_read(0x0010), 0x77);
}

#[test]
fn load_places_program_at_0600_and_sets_reset_vector() {
    let mut cpu = CPU::new();
    cpu.load(vec![0xA9, 0x05, 0x00]);
    assert_eq!(cpu.memory[0x0600], 0xA9);
    assert_eq!(cpu.memory[0x0601], 0x05);
    assert_eq!(cpu.memory[0x0602], 0x00);
    assert_eq!(cpu.memory[0x05FF], 0x00);
    assert_eq!(cpu.memory[0x0603], 0x00);
    assert_eq!(cpu.mem_read_u16(0xFFFC), 0x0600);
}

#[test]
fn step_reports_continue_then_halt() {
    let mut cpu = cpu_with(vec![0xEA, 0x00]);
    assert_eq!(cpu.step(), Ok(StepOutcome::Continue));
    assert_eq!(cpu.program_counter, 0x0601);
    assert_eq!(cpu.total_cycles(), 2);
    assert_eq!(cpu.step(), Ok(StepOutcome::Halted));
    assert_eq!(cpu.program_counter, 0x0602);
    assert_eq!(cpu.total_cycles(), 9);
}

#[test]
fn unsupported_opcode_leaves_pc_at_the_byte_and_charges_nothing() {
    let mut cpu = cpu_with(vec![0xEA, 0x02]);
    let err = cpu.try_run().unwrap_err();
    assert_eq!(err, CpuError::UnsupportedOpcode { opcode: 0x02, pc: 0x0601 });
    assert_eq!(cpu.program_counter, 0x0601);
    assert_eq!(cpu.total_cycles(), 2);
}

#[test]
fn run_stops_when_the_cycle_counter_is_exhausted() {
    // JMP $0600: a program that never halts.
    let mut cpu = cpu_with(vec![0x4C, 0x00, 0x06]);
    cpu.cycles = u64::MAX - 20;
    let err = cpu.try_run().unwrap_err();
    assert_eq!(err, CpuError::CycleLimit);
    assert!(cpu.total_cycles() > u64::MAX - 9);
    assert_eq!(cpu.program_counter, 0x0600);
}

#[test]
fn callback_sees_every_instruction_but_the_halting_one() {
    let mut cpu = cpu_with(vec![0xA9, 0x01, 0xAA, 0xE8, 0x00]);
    let mut seen: Vec<(u16, u8, u8)> = Vec::new();
    cpu.run_with_callback(|c| seen.push((c.program_counter, c.register_a, c.register_x)));
    assert_eq!(seen, vec![(0x0602, 1, 0), (0x0603, 1, 1), (0x0604, 1, 2)]);
}

#[test]
fn zero_page_x_wraps_inside_the_zero_page() {
    let mut cpu = cpu_with(vec![0xA2, 0x02, 0xB5, 0xFF, 0x00]);
    cpu.mem_write(0x0001, 0x99);
    cpu.mem_write(0x0101, 0x11);
    cpu.run();
    assert_eq!(cpu.register_a, 0x99);
}

#[test]
fn zero_page_y_wraps_inside_the_zero_page() {
    let mut cpu = cpu_with(vec![0xA0, 0x10, 0xB6, 0xF8, 0x00]);
    cpu.mem_write(0x0008, 0x5A);
    cpu.run();
    assert_eq!(cpu.register_x, 0x5A);
}

#[test]
fn absolute_x_wraps_at_the_top_of_the_address_space() {
    let mut cpu = cpu_with(vec![0xA2, 0x03, 0xBD, 0xFE, 0xFF, 0x00]);
    cpu.mem_write(0x0001, 0x42);
    cpu.run();
    assert_eq!(cpu.register_a, 0x42);
    // LDX 2, LDA 4 + 1 for the page cross, BRK 7
    assert_eq!(cpu.total_cycles(), 14);
}

#[test]
fn indirect_x_pointer_wraps_inside_the_zero_page() {
    let mut cpu = cpu_with(vec![0xA2, 0x01, 0xA1, 0xFE, 0x00]);
    cpu.mem_write(0x00FF, 0x34);
    cpu.mem_write(0x0000, 0x12);
    cpu.mem_write(0x1234, 0x77);
    cpu.run();
    assert_eq!(cpu.register_a, 0x77);
}

#[test]
fn indirect_y_adds_y_to_the_pointed_word() {
    let mut cpu = cpu_with(vec![0xA0, 0x10, 0xB1, 0x20, 0x00]);
    cpu.mem_write(0x0020, 0xF8);
    cpu.mem_write(0x0021, 0x12);
    cpu.mem_write(0x1308, 0x66);
    cpu.run();
    assert_eq!(cpu.register_a, 0x66);
    // LDY 2, LDA (zp),Y 5 + 1 for the page cross, BRK 7
    assert_eq!(cpu.total_cycles(), 15);
}

#[test]
fn indirect_y_without_page_cross_has_no_penalty() {
    let mut cpu = cpu_with(vec![0xA0, 0x01, 0xB1, 0x20, 0x00]);
    cpu.mem_write(0x0020, 0x00);
    cpu.mem_write(0x0021, 0x12);
    cpu.mem_write(0x1201, 0x66);
    cpu.run();
    assert_eq!(cpu.register_a, 0x66);
    assert_eq!(cpu.total_cycles(), 14);
}

#[test]
fn store_absolute_x_has_no_page_cross_penalty() {
    let mut cpu = cpu_with(vec![0xA2, 0x01, 0xA9, 0x07, 0x9D, 0xFF, 0x02, 0x00]);
    cpu.run();
    assert_eq!(cpu.mem_read(0x0300), 0x07);
    // LDX 2, LDA 2, STA abs,X 5, BRK 7
    assert_eq!(cpu.total_cycles(), 16);
}

#[test]
fn branch_not_taken_costs_base_cycles_only() {
    // LDA #1 ; BEQ +2 ; BRK
    let mut cpu = cpu_with(vec![0xA9, 0x01, 0xF0, 0x02, 0x00]);
    cpu.run();
    assert_eq!(cpu.total_cycles(), 2 + 2 + 7);
    assert_eq!(cpu.program_counter, 0x0605);
}

#[test]
fn branch_taken_on_the_same_page_costs_one_more() {
    // LDA #0 ; BEQ +1 ; (skipped) ; BRK
    let mut cpu = cpu_with(vec![0xA9, 0x00, 0xF0, 0x01, 0x02, 0x00]);
    cpu.run();
    assert_eq!(cpu.total_cycles(), 2 + 3 + 7);
    assert_eq!(cpu.program_counter, 0x0606);
}

#[test]
fn branch_taken_across_a_page_costs_two_more() {
    let mut cpu = CPU::new();
    // BNE -3 at $0600 lands at $05FF, which holds BRK.
    cpu.load(vec![0xD0, 0xFD]);
    cpu.reset();
    cpu.run();
    assert_eq!(cpu.program_counter, 0x0600);
    assert_eq!(cpu.total_cycles(), 4 + 7);
}

#[test]
fn every_branch_tests_its_own_flag() {
    // (opcode, status bits that take the branch)
    let cases: Vec<(u8, u8, bool)> = vec![
        (0x10, 0x00, true),
        (0x10, 0x80, false),
        (0x30, 0x80, true),
        (0x30, 0x00, false),
        (0x50, 0x00, true),
        (0x50, 0x40, false),
        (0x70, 0x40, true),
        (0x70, 0x00, false),
        (0x90, 0x00, true),
        (0x90, 0x01, false),
        (0xB0, 0x01, true),
        (0xB0, 0x00, false),
        (0xD0, 0x00, true),
        (0xD0, 0x02, false),
        (0xF0, 0x02, true),
        (0xF0, 0x00, false),
    ];
    for (opcode, status, taken) in cases {
        let mut cpu = cpu_with(vec![opcode, 0x10]);
        cpu.status = CpuFlags::from_bits_truncate(status);
        assert_eq!(cpu.step(), Ok(StepOutcome::Continue));
        if taken {
            assert_eq!(cpu.program_counter, 0x0612);
            assert_eq!(cpu.total_cycles(), 3);
        } else {
            assert_eq!(cpu.program_counter, 0x0602);
            assert_eq!(cpu.total_cycles(), 2);
        }
    }
}

#[test]
fn jmp_absolute_and_indirect() {
    let mut cpu = cpu_with(vec![0x4C, 0x10, 0x06]);
    assert_eq!(cpu.step(), Ok(StepOutcome::Continue));
    assert_eq!(cpu.program_counter, 0x0610);
    assert_eq!(cpu.total_cycles(), 3);

    let mut cpu = cpu_with(vec![0x6C, 0x20, 0x01]);
    cpu.mem_write(0x0120, 0x78);
    cpu.mem_write(0x0121, 0x56);
    assert_eq!(cpu.step(), Ok(StepOutcome::Continue));
    assert_eq!(cpu.program_counter, 0x5678);
    assert_eq!(cpu.total_cycles(), 5);
}

#[test]
fn jmp_indirect_takes_the_high_byte_from_the_same_page() {
    let mut cpu = cpu_with(vec![0x6C, 0xFF, 0x02]);
    cpu.mem_write(0x02FF, 0x34);
    cpu.mem_write(0x0300, 0x99);
    cpu.mem_write(0x0200, 0x12);
    assert_eq!(cpu.step(), Ok(StepOutcome::Continue));
    assert_eq!(cpu.program_counter, 0x1234);
}

#[test]
fn jmp_to_its_own_operand_is_a_jump() {
    let mut cpu = cpu_with(vec![0x4C, 0x01, 0x06]);
    assert_eq!(cpu.step(), Ok(StepOutcome::Continue));
    assert_eq!(cpu.program_counter, 0x0601);
}

#[test]
fn jsr_pushes_the_last_operand_byte_and_rts_returns_behind_it() {
    // JSR $0605 ; LDX #7 ; BRK ; (at $0605) LDA #9 ; RTS
    let mut cpu = cpu_with(vec![0x20, 0x06, 0x06, 0xA2, 0x07, 0x00, 0xA9, 0x09, 0x60]);
    assert_eq!(cpu.step(), Ok(StepOutcome::Continue));
    assert_eq!(cpu.program_counter, 0x0606);
    assert_eq!(cpu.stack_pointer, 0xFB);
    assert_eq!(cpu.mem_read(0x01FD), 0x06);
    assert_eq!(cpu.mem_read(0x01FC), 0x02);
    cpu.run();
    assert_eq!(cpu.register_a, 9);
    assert_eq!(cpu.register_x, 7);
    assert_eq!(cpu.stack_pointer, 0xFD);
    // JSR 6, LDA 2, RTS 6, LDX 2, BRK 7
    assert_eq!(cpu.total_cycles(), 23);
}

#[test]
fn rti_pulls_status_then_program_counter() {
    let mut cpu = cpu_with(vec![0x40]);
    cpu.stack_push_u16(0x1234);
    cpu.stack_push(0b1101_0011);
    assert_eq!(cpu.step(), Ok(StepOutcome::Continue));
    assert_eq!(cpu.program_counter, 0x1234);
    assert_eq!(cpu.status.bits(), 0b1110_0011);
    assert_eq!(cpu.stack_pointer, 0xFD);
}

#[test]
fn php_sets_break_bits_on_the_stack_only() {
    let mut cpu = cpu_with(vec![0x08, 0x00]);
    cpu.status = CpuFlags::from_bits_truncate(0b1000_0001);
    cpu.run();
    assert_eq!(cpu.mem_read(0x01FD), 0b1011_0001);
    assert_eq!(cpu.status.bits(), 0b1000_0001);
}

#[test]
fn plp_clears_break_and_sets_the_unused_bit() {
    let mut cpu = cpu_with(vec![0x28, 0x00]);
    cpu.stack_push(0b0001_0010);
    cpu.run();
    assert_eq!(cpu.status.bits(), 0b0010_0010);
}

#[test]
fn pha_and_pla_move_the_accumulator() {
    let mut cpu = cpu_with(vec![0xA9, 0x80, 0x48, 0xA9, 0x01, 0x68, 0x00]);
    cpu.run();
    assert_eq!(cpu.register_a, 0x80);
    assert!(cpu.status.contains(CpuFlags::NEGATIV));
    assert!(!cpu.status.contains(CpuFlags::ZERO));
    assert_eq!(cpu.stack_pointer, 0xFD);
}

#[test]
fn flag_instructions_set_and_clear_their_flag() {
    let mut cpu = cpu_with(vec![0x38, 0xF8, 0x78, 0x00]);
    cpu.status = CpuFlags::from_bits_truncate(0);
    cpu.run();
    assert_eq!(cpu.status.bits(), 0b0000_1101);

    let mut cpu = cpu_with(vec![0x18, 0xD8, 0x58, 0xB8, 0x00]);
    cpu.status = CpuFlags::from_bits_truncate(0xFF);
    cpu.run();
    assert_eq!(cpu.status.bits(), 0b1011_0010);
}

#[test]
fn transfers_copy_registers() {
    let mut cpu = cpu_with(vec![0xA9, 0x80, 0xA8, 0xBA, 0x8A, 0x00]);
    cpu.run();
    assert_eq!(cpu.register_y, 0x80);
    assert_eq!(cpu.register_x, 0xFD);
    assert_eq!(cpu.register_a, 0xFD);
    assert!(cpu.status.contains(CpuFlags::NEGATIV));

    // TXS leaves the flags alone.
    let mut cpu = cpu_with(vec![0xA2, 0x00, 0x9A, 0x00]);
    cpu.run();
    assert_eq!(cpu.stack_pointer, 0x00);
    assert!(cpu.status.contains(CpuFlags::ZERO));

    let mut cpu = cpu_with(vec![0xA0, 0x33, 0x98, 0x00]);
    cpu.run();
    assert_eq!(cpu.register_a, 0x33);
}

#[test]
fn index_registers_wrap_both_ways() {
    let mut cpu = cpu_with(vec![0xCA, 0x88, 0x00]);
    cpu.run();
    assert_eq!(cpu.register_x, 0xFF);
    assert_eq!(cpu.register_y, 0xFF);
    assert!(cpu.status.contains(CpuFlags::NEGATIV));

    let mut cpu = cpu_with(vec![0xA0, 0xFF, 0xC8, 0x00]);
    cpu.run();
    assert_eq!(cpu.register_y, 0x00);
    assert!(cpu.status.contains(CpuFlags::ZERO));
}

#[test]
fn inc_and_dec_memory_wrap() {
    let mut cpu = cpu_with(vec![0xE6, 0x10, 0xC6, 0x11, 0x00]);
    cpu.mem_write(0x10, 0xFF);
    cpu.mem_write(0x11, 0x00);
    cpu.run();
    assert_eq!(cpu.mem_read(0x10), 0x00);
    assert_eq!(cpu.mem_read(0x11), 0xFF);
    assert!(cpu.status.contains(CpuFlags::NEGATIV));
    assert!(!cpu.status.contains(CpuFlags::ZERO));
    assert_eq!(cpu.total_cycles(), 5 + 5 + 7);
}

#[test]
fn stack_round_trip_from_any_stack_pointer() {
    for sp in [0x00u8, 0x01, 0x7F, 0xFD, 0xFF] {
        let mut cpu = CPU::new();
        cpu.stack_pointer = sp;
        cpu.stack_push(0xA5);
        assert_eq!(cpu.stack_pointer, sp.wrapping_sub(1));
        assert_eq!(cpu.stack_pop(), 0xA5);
        assert_eq!(cpu.stack_pointer, sp);

        cpu.stack_push_u16(0xBEEF);
        assert_eq!(cpu.stack_pointer, sp.wrapping_sub(2));
        assert_eq!(cpu.mem_read(0x0100 + sp as u16), 0xBE);
        assert_eq!(cpu.mem_read(0x0100 + sp.wrapping_sub(1) as u16), 0xEF);
        assert_eq!(cpu.stack_pop_u16(), 0xBEEF);
        assert_eq!(cpu.stack_pointer, sp);
    }
}

#[test]
fn irq_is_ignored_while_interrupts_are_disabled() {
    let mut cpu = CPU::new();
    cpu.program_counter = 0x4321;
    let before_sp = cpu.stack_pointer;
    assert!(cpu.status.contains(CpuFlags::INTERRUPT_DISABLE));
    assert!(!cpu.trigger_irq());
    assert_eq!(cpu.program_counter, 0x4321);
    assert_eq!(cpu.stack_pointer, before_sp);
    assert_eq!(cpu.status.bits(), 0b0010_0100);
}

#[test]
fn interrupt_frame_keeps_the_other_flags() {
    let mut cpu = CPU::new();
    cpu.program_counter = 0xABCD;
    cpu.status = CpuFlags::from_bits_truncate(0b1100_0011);
    cpu.mem_write_u16(0xFFFA, 0x8000);
    cpu.trigger_nmi();
    assert_eq!(cpu.mem_read(0x01FD), 0xAB);
    assert_eq!(cpu.mem_read(0x01FC), 0xCD);
    assert_eq!(cpu.mem_read(0x01FB), 0b1110_0011);
    assert_eq!(cpu.status.bits(), 0b1100_0111);
    assert_eq!(cpu.program_counter, 0x8000);
}
