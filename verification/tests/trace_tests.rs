use res_core::cpu::CpuError;
use res_core::cpu::CPU;
use res_core::cpu::TraceState;

#[test]
fn traced_run_hands_out_a_snapshot_per_instruction() {
    let mut cpu = CPU::new();
    cpu.load(vec![0xA9, 0x05, 0xAA, 0x00]);
    cpu.reset();
    let mut lines: Vec<String> = Vec::new();
    cpu.run_with_trace(|t| lines.push(t.to_log_line()));
    assert_eq!(
        lines,
        vec![
            "PC:0602 OPC:AA TAX A:05 X:00 Y:00 P:00100100 SP:FD".to_string(),
            "PC:0603 OPC:00 BRK A:05 X:05 Y:00 P:00100100 SP:FD".to_string(),
        ]
    );
}

#[test]
fn traced_run_reports_a_byte_that_is_no_instruction() {
    let mut cpu = CPU::new();
    cpu.load(vec![0xE8, 0x03]);
    cpu.reset();
    let mut snapshots: Vec<TraceState> = Vec::new();
    let r = cpu.try_run_with_trace(&mut |t| snapshots.push(t));
    assert_eq!(r, Err(CpuError::UnsupportedOpcode { opcode: 0x03, pc: 0x0601 }));
    assert_eq!(snapshots.len(), 1);
    assert_eq!(snapshots[0].pc, 0x0601);
    assert_eq!(snapshots[0].opcode, 0x03);
    assert_eq!(snapshots[0].mnemonic, "???");
    assert_eq!(snapshots[0].register_x, 1);
}

#[test]
fn snapshot_names_the_instruction_at_the_program_counter() {
    let mut cpu = CPU::new();
    cpu.load(vec![0x6C, 0x00, 0x00]);
    cpu.reset();
    cpu.register_y = 0x44;
    let t = cpu.current_trace_state();
    assert_eq!(t.pc, 0x0600);
    assert_eq!(t.opcode, 0x6C);
    assert_eq!(t.mnemonic, "JMP");
    assert_eq!(t.register_y, 0x44);
    assert_eq!(t.status, 0x24);
    assert_eq!(t.stack_pointer, 0xFD);
}

#[test]
fn snapshot_loads_the_opcode_through_the_bus() {
    let mut cpu = CPU::new();
    cpu.ppu.status = 0x80;
    cpu.program_counter = 0x2002;
    let t = cpu.capture_trace_state();
    assert_eq!(t.opcode, 0x80);
    assert_eq!(t.mnemonic, "???");
    assert_eq!(cpu.ppu.status, 0x00);
}
