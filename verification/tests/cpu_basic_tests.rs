use res_core::cpu::Mem;
use res_core::cpu::CPU;
use res_core::flags::CpuFlags;

#[test]
fn cpu_test_0xa9_lda_immediate_load_data() {
    let mut cpu = CPU::new();
    cpu.load_and_run(vec![0xa9, 0x05, 0x00]);
    assert_eq!(cpu.register_a, 5);
    assert!(cpu.status.bits() & 0b0000_0010 == 0b00);
    assert!(cpu.status.bits() & 0b1000_0000 == 0);
}

#[test]
fn cpu_test_0xa9_lda_zero_flag() {
    let mut cpu = CPU::new();
    cpu.load_and_run(vec![0xa9, 0x00, 0x00]);
    assert!(cpu.status.bits() & 0b0000_0010 == 0b10);
}

#[test]
fn cpu_test_0xaa_tax_move_a_to_x() {
    let mut cpu = CPU::new();
    cpu.load_and_run(vec![0xa9, 0x0a, 0xaa, 0x00]);

    assert_eq!(cpu.register_x, 10)
}

#[test]
fn cpu_test_5_ops_working_together() {
    let mut cpu = CPU::new();
    cpu.load_and_run(vec![0xa9, 0xc0, 0xaa, 0xe8, 0x00]);

    assert_eq!(cpu.register_x, 0xc1);
}

#[test]
fn cpu_test_inx_overflow() {
    let mut cpu = CPU::new();
    cpu.load_and_run(vec![0xa9, 0xff, 0xaa, 0xe8, 0xe8, 0x00]);

    assert_eq!(cpu.register_x, 1);
}

#[test]
fn cpu_test_lda_from_memory() {
    let mut cpu = CPU::new();
    cpu.mem_write(0x10, 0x55);

    cpu.load_and_run(vec![0xa5, 0x10, 0x00]);
    assert_eq!(cpu.register_a, 0x55);
}

#[test]
fn cpu_test_ldx() {
    let mut cpu = CPU::new();
    cpu.mem_write(0x10, 0x55);

    cpu.load_and_run(vec![0xa2, 0x10, 0xa6, 0x10, 0x00]);
    assert_eq!(cpu.register_x, 0x55);
}

#[test]
fn cpu_test_ldy() {
    let mut cpu = CPU::new();
    cpu.mem_write(0x10, 0x55);

    cpu.load_and_run(vec![0xa0, 0x10, 0xa4, 0x10, 0x00]);
    assert_eq!(cpu.register_y, 0x55);
}

#[test]
fn cpu_test_sta() {
    let mut cpu = CPU::new();
    cpu.register_a = 0x55;
    cpu.load_and_run(vec![0xa9, 0x55, 0x85, 0x10, 0x00]);
    assert_eq!(cpu.mem_read(0x10), 0x55);
}

#[test]
fn cpu_test_sta_zero_page_x() {
    let mut cpu = CPU::new();
    cpu.register_a = 0x55;
    cpu.register_x = 0x05;
    cpu.load_and_run(vec![0xa9, 0x55, 0x95, 0x05, 0x00]);
    assert_eq!(cpu.mem_read(0x05), 0x55);
}

#[test]
fn cpu_test_sta_absolute() {
    let mut cpu = CPU::new();
    cpu.register_a = 0x55;
    cpu.load_and_run(vec![0xa9, 0x55, 0x8d, 0x00, 0x80, 0x00]);
    assert_eq!(cpu.mem_read(0x8000), 0x55);
}

#[test]
fn test_sta_absolute_x() {
    let mut cpu = CPU::new();
    cpu.register_a = 0x55;
    cpu.load(vec![0xa9, 0x55, 0x9d, 0x00, 0x80, 0x00]);
    cpu.reset();
    cpu.register_x = 0x01;
    cpu.run();
    assert_eq!(cpu.mem_read(0x8001), 0x55);
}

#[test]
fn test_sta_absolute_y() {
    let mut cpu = CPU::new();
    cpu.register_a = 0x55;
    cpu.load(vec![0xa9, 0x55, 0x99, 0x00, 0x80, 0x00]);
    cpu.reset();
    cpu.register_y = 0x01;
    cpu.run();
    assert_eq!(cpu.mem_read(0x8001), 0x55);
}

#[test]
fn test_stack_push_and_pop() {
    let mut cpu = CPU::new();
    cpu.stack_push(0x55);
    assert_eq!(cpu.stack_pop(), 0x55);
}

#[test]
fn cpu_test_stack_push_and_pop_u16() {
    let mut cpu = CPU::new();
    cpu.stack_push(0x55);
    cpu.stack_push(0x66);
    assert_eq!(cpu.stack_pop_u16(), 0x5566);
}

#[test]
fn cpu_test_mem_read() {
    let mut cpu = CPU::new();
    cpu.memory[0x10] = 0x55;
    assert_eq!(cpu.mem_read(0x10), 0x55);
}

#[test]
fn cpu_test_mem_write() {
    let mut cpu = CPU::new();
    cpu.mem_write(0x10, 0x55);
    assert_eq!(cpu.memory[0x10], 0x55);
}

#[test]
fn cpu_test_mem_read_u16() {
    let mut cpu = CPU::new();
    cpu.memory[0x10] = 0x55;
    cpu.memory[0x11] = 0x66;
    assert_eq!(cpu.mem_read_u16(0x10), 0x6655);
}

#[test]
fn cpu_test_mem_write_u16() {
    let mut cpu = CPU::new();
    cpu.mem_write_u16(0x10, 0x6655);
    assert_eq!(cpu.memory[0x10], 0x55);
    assert_eq!(cpu.memory[0x11], 0x66);
}

#[test]
fn cpu_test_and_immediate() {
    let mut cpu = CPU::new();
    cpu.register_a = 0b1100_0000;
    cpu.load_and_run(vec![0xa9, 0b1010_1010, 0x29, 0b0101_0101, 0x00]);
    assert_eq!(cpu.register_a, 0b0000_0000);
}

#[test]
fn cpu_test_eor_immediate() {
    let mut cpu = CPU::new();
    cpu.register_a = 0b1100_0000;
    cpu.load_and_run(vec![0xa9, 0b1010_1010, 0x49, 0b0101_0101, 0x00]);
    assert_eq!(cpu.register_a, 0b1111_1111);
}

#[test]
fn cpu_test_ora_immediate() {
    let mut cpu = CPU::new();
    cpu.register_a = 0b1100_0000;
    cpu.load_and_run(vec![0xa9, 0b1010_1010, 0x09, 0b0101_0101, 0x00]);
    assert_eq!(cpu.register_a, 0b1111_1111);
}

#[test]
fn cpu_test_asl_accumulator() {
    let mut cpu = CPU::new();
    cpu.register_a = 0b1000_0000;
    cpu.load_and_run(vec![0x0a, 0x00]);
    assert_eq!(cpu.register_a, 0b0000_0000);
    assert!(cpu.status.bits() & 0b0000_0010 == 0b10);
    assert!(cpu.status.bits() & 0b0000_0001 == 0b00);
}

#[test]
fn cpu_test_asl_zero_page() {
    let mut cpu = CPU::new();
    cpu.mem_write(0x10, 0b1000_0001);
    cpu.load_and_run(vec![0x06, 0x10, 0x00]);
    assert_eq!(cpu.mem_read(0x10), 0b0000_0010);
    assert!(!cpu.status.contains(CpuFlags::ZERO));
    assert!(cpu.status.contains(CpuFlags::CARRY));
}

#[test]
fn cpu_test_lsr_accumulator() {
    let mut cpu = CPU::new();
    cpu.register_a = 0b1000_0001;
    cpu.lsr_accumulator();
    assert_eq!(cpu.register_a, 0b0100_0000);
    assert!(cpu.status.contains(CpuFlags::CARRY));
    assert!(!cpu.status.contains(CpuFlags::ZERO));
    assert!(!cpu.status.contains(CpuFlags::NEGATIV));
}

#[test]
fn cpu_test_rol_accumulator() {
    let mut cpu = CPU::new();
    cpu.register_a = 0b1000_0001;
    cpu.rol_accumulator();
    assert_eq!(cpu.register_a, 0b0000_0010);
    assert!(cpu.status.contains(CpuFlags::CARRY));
    assert!(!cpu.status.contains(CpuFlags::ZERO));
    assert!(!cpu.status.contains(CpuFlags::NEGATIV));
}

#[test]
fn cpu_test_rol_accumulator_with_carry() {
    let mut cpu = CPU::new();
    cpu.register_a = 0b1000_0000;
    cpu.status.insert(CpuFlags::CARRY);
    cpu.rol_accumulator();
    assert_eq!(cpu.register_a, 0b0000_0001);
    assert!(cpu.status.contains(CpuFlags::CARRY));
    assert!(!cpu.status.contains(CpuFlags::ZERO));
    assert!(!cpu.status.contains(CpuFlags::NEGATIV));
}

#[test]
fn cpu_test_ror_accumulator() {
    let mut cpu = CPU::new();
    cpu.register_a = 0b0000_0010;
    cpu.ror_accumulator();
    assert_eq!(cpu.register_a, 0b0000_0001);
    assert!(!cpu.status.contains(CpuFlags::CARRY));
    assert!(!cpu.status.contains(CpuFlags::ZERO));
    assert!(!cpu.status.contains(CpuFlags::NEGATIV));
}

#[test]
fn cpu_test_ror_accumulator_with_carry() {
    let mut cpu = CPU::new();
    cpu.register_a = 0b0000_0001;
    cpu.status.insert(CpuFlags::CARRY);
    cpu.ror_accumulator();
    assert_eq!(cpu.register_a, 0b1000_0000);
    assert!(cpu.status.contains(CpuFlags::CARRY));
    assert!(!cpu.status.contains(CpuFlags::ZERO));
    assert!(cpu.status.contains(CpuFlags::NEGATIV));
}

#[test]
fn cpu_test_dec() {
    let mut cpu = CPU::new();
    cpu.mem_write(0x10, 0x55);
    cpu.load_and_run(vec![0xc6, 0x10, 0x00]);
    assert_eq!(cpu.mem_read(0x10), 0x54);
}

#[test]
fn cpu_test_bit() {
    let mut cpu = CPU::new();
    cpu.register_a = 0b1100_0000;
    cpu.mem_write(0x10, 0b1010_1010);
    cpu.load_and_run(vec![0x24, 0x10, 0x00]);
    assert!(cpu.status.contains(CpuFlags::ZERO));
    assert!(!cpu.status.contains(CpuFlags::OVERFLOW));
    assert!(cpu.status.contains(CpuFlags::NEGATIV));
}
