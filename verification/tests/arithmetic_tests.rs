use res_core::cpu::Mem;
use res_core::cpu::StepOutcome;
use res_core::cpu::CPU;
use res_core::flags::CpuFlags;

fn cpu_at(program: Vec<u8>, a: u8, status: u8) -> CPU {
    let mut cpu = CPU::new();
    cpu.load(program);
    cpu.reset();
    cpu.register_a = a;
    cpu.status = CpuFlags::from_bits_truncate(status);
    cpu
}

fn flags(cpu: &CPU) -> (bool, bool, bool, bool) {
    (
        cpu.status.contains(CpuFlags::CARRY),
        cpu.status.contains(CpuFlags::ZERO),
        cpu.status.contains(CpuFlags::OVERFLOW),
        cpu.status.contains(CpuFlags::NEGATIV),
    )
}

#[test]
fn adc_sets_carry_overflow_zero_and_negative() {
    // (a, m, carry in, result, carry, zero, overflow, negative)
    let cases: Vec<(u8, u8, bool, u8, bool, bool, bool, bool)> = vec![
        (0x50, 0x10, false, 0x60, false, false, false, false),
        (0x50, 0x50, false, 0xA0, false, false, true, true),
        (0xD0, 0x90, false, 0x60, true, false, true, false),
        (0xFF, 0x01, false, 0x00, true, true, false, false),
        (0x00, 0x00, true, 0x01, false, false, false, false),
        (0x7F, 0x00, true, 0x80, false, false, true, true),
        (0xFF, 0xFF, true, 0xFF, true, false, false, true),
    ];
    for (a, m, carry, result, c, z, v, n) in cases {
        let mut cpu = cpu_at(vec![0x69, m], a, if carry { 0x01 } else { 0x00 });
        assert_eq!(cpu.step(), Ok(StepOutcome::Continue));
        assert_eq!(cpu.register_a, result);
        assert_eq!(flags(&cpu), (c, z, v, n));
        assert_eq!(cpu.total_cycles(), 2);
    }
}

#[test]
fn sbc_subtracts_operand_and_borrow() {
    // (a, m, carry in, result, carry, zero, overflow, negative)
    let cases: Vec<(u8, u8, bool, u8, bool, bool, bool, bool)> = vec![
        (0x05, 0x03, true, 0x02, true, false, false, false),
        (0x05, 0x03, false, 0x01, true, false, false, false),
        (0x50, 0xF0, true, 0x60, false, false, false, false),
        (0x50, 0xB0, true, 0xA0, false, false, true, true),
        (0xD0, 0x70, true, 0x60, true, false, true, false),
        (0x10, 0x10, true, 0x00, true, true, false, false),
        (0x00, 0x01, true, 0xFF, false, false, false, true),
    ];
    for (a, m, carry, result, c, z, v, n) in cases {
        let mut cpu = cpu_at(vec![0xE9, m], a, if carry { 0x01 } else { 0x00 });
        assert_eq!(cpu.step(), Ok(StepOutcome::Continue));
        assert_eq!(cpu.register_a, result);
        assert_eq!(flags(&cpu), (c, z, v, n));
    }
}

#[test]
fn sbc_equals_adc_of_the_complement() {
    for a in [0x00u8, 0x01, 0x50, 0x7F, 0x80, 0xD0, 0xFF] {
        for m in [0x00u8, 0x01, 0x10, 0x7F, 0x80, 0xB0, 0xF0, 0xFF] {
            for status in [0x01u8, 0x00] {
                let mut sbc = cpu_at(vec![0xE9, m], a, status);
                let mut adc = cpu_at(vec![0x69, !m], a, status);
                assert_eq!(sbc.step(), Ok(StepOutcome::Continue));
                assert_eq!(adc.step(), Ok(StepOutcome::Continue));
                assert_eq!(sbc.register_a, adc.register_a);
                assert_eq!(sbc.status.bits(), adc.status.bits());
            }
        }
    }
}

#[test]
fn flags_follow_the_accumulator_after_every_write_to_it() {
    // Programs of one instruction that writes A, from a range of states.
    let programs: Vec<Vec<u8>> = vec![
        vec![0xA9, 0x00],
        vec![0xA9, 0x80],
        vec![0x29, 0x0F],
        vec![0x49, 0xFF],
        vec![0x09, 0x00],
        vec![0x69, 0x01],
        vec![0xE9, 0x01],
        vec![0x0A],
        vec![0x4A],
        vec![0x2A],
        vec![0x6A],
        vec![0x8A],
        vec![0x98],
    ];
    for program in programs {
        for a in [0x00u8, 0x01, 0x7F, 0x80, 0xFF] {
            for status in [0x00u8, 0x01, 0x83] {
                let mut cpu = cpu_at(program.clone(), a, status);
                assert_eq!(cpu.step(), Ok(StepOutcome::Continue));
                assert_eq!(cpu.status.contains(CpuFlags::ZERO), cpu.register_a == 0);
                assert_eq!(cpu.status.contains(CpuFlags::NEGATIV), cpu.register_a & 0x80 != 0);
            }
        }
    }
}

#[test]
fn compare_sets_carry_zero_and_negative() {
    // (register, operand, carry, zero, negative)
    let cases: Vec<(u8, u8, bool, bool, bool)> = vec![
        (0x10, 0x10, true, true, false),
        (0x10, 0x20, false, false, true),
        (0x20, 0x10, true, false, false),
        (0x00, 0xFF, false, false, false),
        (0xFF, 0x00, true, false, true),
    ];
    for (reg, m, c, z, n) in cases {
        let mut cpu = cpu_at(vec![0xC9, m], reg, 0);
        assert_eq!(cpu.step(), Ok(StepOutcome::Continue));
        assert_eq!(cpu.register_a, reg);
        assert_eq!(cpu.status.contains(CpuFlags::CARRY), c);
        assert_eq!(cpu.status.contains(CpuFlags::ZERO), z);
        assert_eq!(cpu.status.contains(CpuFlags::NEGATIV), n);

        let mut cpu = cpu_at(vec![0xE0, m], 0, 0);
        cpu.register_x = reg;
        assert_eq!(cpu.step(), Ok(StepOutcome::Continue));
        assert_eq!(cpu.status.contains(CpuFlags::CARRY), c);
        assert_eq!(cpu.status.contains(CpuFlags::ZERO), z);

        let mut cpu = cpu_at(vec![0xC0, m], 0, 0);
        cpu.register_y = reg;
        assert_eq!(cpu.step(), Ok(StepOutcome::Continue));
        assert_eq!(cpu.status.contains(CpuFlags::CARRY), c);
        assert_eq!(cpu.status.contains(CpuFlags::NEGATIV), n);
    }
}

#[test]
fn bit_copies_bits_seven_and_six_of_the_operand() {
    let mut cpu = cpu_at(vec![0x24, 0x10], 0xFF, 0);
    cpu.mem_write(0x10, 0x40);
    assert_eq!(cpu.step(), Ok(StepOutcome::Continue));
    assert_eq!(cpu.register_a, 0xFF);
    assert!(!cpu.status.contains(CpuFlags::ZERO));
    assert!(cpu.status.contains(CpuFlags::OVERFLOW));
    assert!(!cpu.status.contains(CpuFlags::NEGATIV));

    let mut cpu = cpu_at(vec![0x2C, 0x00, 0x03], 0x01, 0x40);
    cpu.mem_write(0x0300, 0x80);
    assert_eq!(cpu.step(), Ok(StepOutcome::Continue));
    assert!(cpu.status.contains(CpuFlags::ZERO));
    assert!(!cpu.status.contains(CpuFlags::OVERFLOW));
    assert!(cpu.status.contains(CpuFlags::NEGATIV));
    assert_eq!(cpu.total_cycles(), 4);
}

#[test]
fn logic_instructions_combine_operand_and_accumulator() {
    let mut cpu = cpu_at(vec![0x29, 0xF0], 0x3C, 0);
    cpu.step().unwrap();
    assert_eq!(cpu.register_a, 0x30);
    let mut cpu = cpu_at(vec![0x49, 0xF0], 0x3C, 0);
    cpu.step().unwrap();
    assert_eq!(cpu.register_a, 0xCC);
    let mut cpu = cpu_at(vec![0x09, 0xF0], 0x3C, 0);
    cpu.step().unwrap();
    assert_eq!(cpu.register_a, 0xFC);
}

#[test]
fn memory_shifts_store_the_result_and_set_zero() {
    // (opcode, value, carry in, result, carry out, zero, negative)
    let cases: Vec<(u8, u8, bool, u8, bool, bool, bool)> = vec![
        (0x06, 0x80, false, 0x00, true, true, false),
        (0x06, 0x41, true, 0x82, false, false, true),
        (0x46, 0x01, false, 0x00, true, true, false),
        (0x46, 0x82, true, 0x41, false, false, false),
        (0x26, 0x80, false, 0x00, true, true, false),
        (0x26, 0x40, true, 0x81, false, false, true),
        (0x66, 0x01, false, 0x00, true, true, false),
        (0x66, 0x02, true, 0x81, false, false, true),
    ];
    for (opcode, value, carry, result, c, z, n) in cases {
        let mut cpu = cpu_at(vec![opcode, 0x10], 0x55, if carry { 0x01 } else { 0x00 });
        cpu.mem_write(0x10, value);
        assert_eq!(cpu.step(), Ok(StepOutcome::Continue));
        assert_eq!(cpu.mem_read(0x10), result);
        assert_eq!(cpu.register_a, 0x55);
        assert_eq!(cpu.status.contains(CpuFlags::CARRY), c);
        assert_eq!(cpu.status.contains(CpuFlags::ZERO), z);
        assert_eq!(cpu.status.contains(CpuFlags::NEGATIV), n);
        assert_eq!(cpu.total_cycles(), 5);
    }
}

#[test]
fn handlers_return_the_byte_they_stored() {
    let mut cpu = cpu_at(vec![0x10], 0, 0x01);
    cpu.mem_write(0x10, 0x81);
    let mode = res_core::cpu::AddressingMode::ZeroPage;
    assert_eq!(cpu.asl(&mode), 0x02);
    assert_eq!(cpu.lsr(&mode), 0x01);
    assert_eq!(cpu.inc(&mode), 0x02);
    assert_eq!(cpu.dec(&mode), 0x01);
    cpu.status = CpuFlags::from_bits_truncate(0x01);
    assert_eq!(cpu.rol(&mode), 0x03);
    assert_eq!(cpu.ror(&mode), 0x01);
    assert!(cpu.status.contains(CpuFlags::CARRY));
}

#[test]
fn status_flag_operations() {
    let mut f = CpuFlags::from_bits_truncate(0b0000_0101);
    assert_eq!(f.bits(), 0b0000_0101);
    assert!(f.contains(CpuFlags::CARRY));
    assert!(f.contains(CpuFlags::CARRY | CpuFlags::INTERRUPT_DISABLE));
    assert!(!f.contains(CpuFlags::CARRY | CpuFlags::ZERO));
    f.insert(CpuFlags::NEGATIV);
    assert_eq!(f.bits(), 0b1000_0101);
    f.remove(CpuFlags::CARRY);
    assert_eq!(f.bits(), 0b1000_0100);
    f.set(CpuFlags::OVERFLOW, true);
    f.set(CpuFlags::NEGATIV, false);
    assert_eq!(f.bits(), 0b0100_0100);
    assert_eq!(CpuFlags::BREAK, 0x10);
    assert_eq!(CpuFlags::BREAK2, 0x20);
    assert_eq!(CpuFlags::DECIMAL_MODE, 0x08);
}
