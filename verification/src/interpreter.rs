//! The interpreter proper: instruction dispatch, the single step and the
//! run loops.

use crate::cpu::CpuError;
use crate::cpu::StepOutcome;
use crate::cpu::CPU;
use crate::cpu::Mem;
use crate::cpu_state::addresses_operand;
use crate::cpu_state::lemma_step_costs;
use crate::cpu_state::CpuState;
use crate::cpu_state::CYCLE_LIMIT;
use crate::flags::CpuFlags;
use crate::opcodes::lookup;
use crate::opcodes::AddressingMode;
use crate::opcodes::Opcode;
use crate::trace::TraceState;
use vstd::prelude::*;

verus! {

impl CPU {
    // -------------------------------------------------------- execution
    /// Tests the flag on which the branch instruction `code` depends.
    pub fn branch_condition(&self, code: u8) -> (condition: bool)
        ensures
            condition == self@.branch_condition(code),
    {
        match code {
            0x10 => !self.status.contains(CpuFlags::NEGATIV),
            0x30 => self.status.contains(CpuFlags::NEGATIV),
            0x50 => !self.status.contains(CpuFlags::OVERFLOW),
            0x70 => self.status.contains(CpuFlags::OVERFLOW),
            0x90 => !self.status.contains(CpuFlags::CARRY),
            0xB0 => self.status.contains(CpuFlags::CARRY),
            0xD0 => !self.status.contains(CpuFlags::ZERO),
            _ => self.status.contains(CpuFlags::ZERO),
        }
    }

    /// Carries out a branch instruction and counts its extra cycles.
    pub fn branch_on(&mut self, condition: bool) -> (cost: (u64, bool))
        ensures
            (final(self)@, cost.0 as nat, cost.1) == old(self)@.branch_on(condition),
            cost.0 <= 2,
    {
        let (taken, crossed) = self.branch(condition);
        let extra: u64 = if !taken {
            0
        } else if crossed {
            2
        } else {
            1
        };
        (extra, taken)
    }

    /// Carries out an instruction of the accumulator group, whose opcodes
    /// end in the bits `01`: `ORA`, `AND`, `EOR`, `ADC`, `STA`, `LDA`, `SBC`
    /// and the accumulator compare.
    #[verifier::rlimit(50)]
    fn execute_accumulator_group(&mut self, code: u8, mode: &AddressingMode) -> (cost: (u64, bool))
        requires
            code % 4 == 1,
            addresses_operand(code) ==> *mode != AddressingMode::NoneAddressing,
        ensures
            (final(self)@, cost.0 as nat, cost.1) == old(self)@.execute(code, *mode),
            cost.0 <= 2,
    {
        reveal(CpuState::execute);
        match code {
            0xA9 | 0xA5 | 0xB5 | 0xAD | 0xBD | 0xB9 | 0xA1 | 0xB1 => {
                self.lda(mode);
            },
            0x85 | 0x95 | 0x8D | 0x9D | 0x99 | 0x81 | 0x91 => {
                self.sta(mode);
            },
            0x69 | 0x65 | 0x75 | 0x6D | 0x7D | 0x79 | 0x61 | 0x71 => {
                self.adc(mode);
            },
            0xE9 | 0xE5 | 0xF5 | 0xED | 0xFD | 0xF9 | 0xE1 | 0xF1 => {
                self.sbc(mode);
            },
            0x29 | 0x25 | 0x35 | 0x2D | 0x3D | 0x39 | 0x21 | 0x31 => {
                self.and(mode);
            },
            0x49 | 0x45 | 0x55 | 0x4D | 0x5D | 0x59 | 0x41 | 0x51 => {
                self.eor(mode);
            },
            0x09 | 0x05 | 0x15 | 0x0D | 0x1D | 0x19 | 0x01 | 0x11 => {
                self.ora(mode);
            },
            0xC9 | 0xC5 | 0xD5 | 0xCD | 0xDD | 0xD9 | 0xC1 | 0xD1 => {
                self.compare(mode, self.register_a);
            },
            _ => {},
        }
        (0, false)
    }

    /// Carries out an instruction of the read-modify-write group, whose
    /// opcodes end in the bits `10`: the shifts and rotates, `INC`, `DEC`,
    /// `LDX`, `STX`, the transfers from and to X, `DEX` and `NOP`.
    #[verifier::rlimit(50)]
    fn execute_modify_group(&mut self, code: u8, mode: &AddressingMode) -> (cost: (u64, bool))
        requires
            code % 4 == 2,
            addresses_operand(code) ==> *mode != AddressingMode::NoneAddressing,
        ensures
            (final(self)@, cost.0 as nat, cost.1) == old(self)@.execute(code, *mode),
            cost.0 <= 2,
    {
        reveal(CpuState::execute);
        match code {
            0xA2 | 0xA6 | 0xB6 | 0xAE | 0xBE => {
                self.ldx(mode);
            },
            0x86 | 0x96 | 0x8E => {
                self.stx(mode);
            },
            0xAA => self.tax(),
            0xBA => self.tsx(),
            0x8A => self.txa(),
            0x9A => self.txs(),
            0x0A => self.asl_accumulator(),
            0x06 | 0x16 | 0x0E | 0x1E => {
                self.asl(mode);
            },
            0x4A => self.lsr_accumulator(),
            0x46 | 0x56 | 0x4E | 0x5E => {
                self.lsr(mode);
            },
            0x2A => self.rol_accumulator(),
            0x26 | 0x36 | 0x2E | 0x3E => {
                self.rol(mode);
            },
            0x6A => self.ror_accumulator(),
            0x66 | 0x76 | 0x6E | 0x7E => {
                self.ror(mode);
            },
            0xE6 | 0xF6 | 0xEE | 0xFE => {
                self.inc(mode);
            },
            0xC6 | 0xD6 | 0xCE | 0xDE => {
                self.dec(mode);
            },
            0xCA => self.dex(),
            _ => {},
        }
        (0, false)
    }

    /// Carries out an instruction of the lower half of the control group,
    /// whose opcodes end in the bits `00`: the branches, jumps, calls and
    /// returns, the stack instructions, `BIT` and the flag instructions
    /// below `$80`.
    #[verifier::rlimit(50)]
    fn execute_control_group(&mut self, code: u8, mode: &AddressingMode) -> (cost: (u64, bool))
        requires
            code % 4 == 0,
            code < 0x80,
            addresses_operand(code) ==> *mode != AddressingMode::NoneAddressing,
        ensures
            (final(self)@, cost.0 as nat, cost.1) == old(self)@.execute(code, *mode),
            cost.0 <= 2,
    {
        reveal(CpuState::execute);
        match code {
            0x24 | 0x2C => {
                self.bit(mode);
            },
            0x10 | 0x30 | 0x50 | 0x70 => {
                let condition: bool = self.branch_condition(code);
                return self.branch_on(condition);
            },
            0x4C => {
                self.jmp_absolute();
                return (0, true);
            },
            0x6C => {
                self.jmp_indirect();
                return (0, true);
            },
            0x20 => {
                self.jsr();
                return (0, true);
            },
            0x60 => {
                self.rts();
                return (0, true);
            },
            0x40 => {
                self.rti();
                return (0, true);
            },
            0x48 => self.pha(),
            0x68 => self.pla(),
            0x08 => self.php(),
            0x28 => self.plp(),
            0x18 => self.clear_carry_flag(),
            0x38 => self.set_carry_flag(),
            0x58 => self.status.remove(CpuFlags::INTERRUPT_DISABLE),
            0x78 => self.status.insert(CpuFlags::INTERRUPT_DISABLE),
            _ => {},
        }
        (0, false)
    }

    /// Carries out an instruction of the upper half of the control group,
    /// whose opcodes end in the bits `00`: `LDY`, `STY`, the compares with
    /// X and Y, the instructions on the Y register, `INX`, and the branches
    /// and flag instructions from `$80` on.
    #[verifier::rlimit(50)]
    fn execute_index_group(&mut self, code: u8, mode: &AddressingMode) -> (cost: (u64, bool))
        requires
            code % 4 == 0,
            code >= 0x80,
            addresses_operand(code) ==> *mode != AddressingMode::NoneAddressing,
        ensures
            (final(self)@, cost.0 as nat, cost.1) == old(self)@.execute(code, *mode),
            cost.0 <= 2,
    {
        reveal(CpuState::execute);
        match code {
            0xA0 | 0xA4 | 0xB4 | 0xAC | 0xBC => {
                self.ldy(mode);
            },
            0x84 | 0x94 | 0x8C => {
                self.sty(mode);
            },
            0xA8 => self.tay(),
            0x98 => self.tya(),
            0xE8 => self.inx(),
            0xC8 => self.iny(),
            0x88 => self.dey(),
            0xE0 | 0xE4 | 0xEC => {
                self.compare(mode, self.register_x);
            },
            0xC0 | 0xC4 | 0xCC => {
                self.compare(mode, self.register_y);
            },
            0x90 | 0xB0 | 0xD0 | 0xF0 => {
                let condition: bool = self.branch_condition(code);
                return self.branch_on(condition);
            },
            0xB8 => self.status.remove(CpuFlags::OVERFLOW),
            0xD8 => self.status.remove(CpuFlags::DECIMAL_MODE),
            0xF8 => self.status.insert(CpuFlags::DECIMAL_MODE),
            _ => {},
        }
        (0, false)
    }

    /// Carries out the instruction `code`, whose opcode byte is fetched
    /// already. Answers the cycles beyond the base cost and whether the
    /// instruction set the program counter.
    ///
    /// The two low bits of an opcode name its group; no documented opcode
    /// ends in `11`.
    pub fn execute(&mut self, code: u8, mode: &AddressingMode) -> (cost: (u64, bool))
        requires
            addresses_operand(code) ==> *mode != AddressingMode::NoneAddressing,
        ensures
            (final(self)@, cost.0 as nat, cost.1) == old(self)@.execute(code, *mode),
            cost.0 <= 2,
    {
        reveal(CpuState::execute);
        let group: u8 = code % 4;
        if group == 1 {
            self.execute_accumulator_group(code, mode)
        } else if group == 2 {
            self.execute_modify_group(code, mode)
        } else if group == 0 {
            if code < 0x80 {
                self.execute_control_group(code, mode)
            } else {
                self.execute_index_group(code, mode)
            }
        } else {
            (0, false)
        }
    }

    /// Carries out the instruction at the program counter.
    ///
    /// The cycle counter must be able to hold the instruction's cost.
    #[verifier::rlimit(50)]
    pub fn step(&mut self) -> (r: Result<StepOutcome, CpuError>)
        requires
            old(self).cycles <= CYCLE_LIMIT,
        ensures
            (final(self)@, r) == old(self)@.step(),
    {
        let opcode_pc: u16 = self.program_counter;
        let cycles: u64 = self.cycles;
        let code: u8 = self.mem_read(opcode_pc);
        let opcode: Opcode = match lookup(code) {
            Some(opcode) => opcode,
            None => {
                return Err(CpuError::UnsupportedOpcode { opcode: code, pc: opcode_pc });
            },
        };
        proof {
            crate::opcodes::lemma_table_rows(code);
            crate::cpu_state::lemma_operand_modes(code);
        }
        self.program_counter = opcode_pc.wrapping_add(1);
        if code == 0x00 {
            self.cycles = cycles + opcode.cycles as u64;
            return Ok(StepOutcome::Halted);
        }
        let mut penalty: u64 = 0;
        if Self::opcode_has_page_cross_penalty(code) {
            if self.did_page_cross(&opcode.mode) {
                penalty = 1;
            }
        }
        let (extra, jumped) = self.execute(code, &opcode.mode);
        if !jumped {
            self.program_counter = self.program_counter.wrapping_add((opcode.len - 1) as u16);
        }
        self.cycles = cycles + opcode.cycles as u64 + extra + penalty;
        Ok(StepOutcome::Continue)
    }
}

impl CPU {
    // ------------------------------------------------------------- runs
    /// Runs until `BRK`, and reports the byte that is no instruction, or the
    /// exhausted cycle counter, if the run ends on one. `callback` sees the
    /// CPU after every instruction but the halting one.
    pub fn try_run_with_callback<F>(&mut self, callback: &mut F) -> (r: Result<(), CpuError>) where
        F: FnMut(&CPU),

        requires
            forall|cpu: &CPU| call_requires(*old(callback), (cpu,)),
        ensures
            (final(self)@, r) == old(self)@.run(false),
    {
        let ghost start = self@;
        loop
            invariant
                start == old(self)@,
                self@.run(false) == start.run(false),
                forall|cpu: &CPU| call_requires(*callback, (cpu,)),
            decreases 0xFFFF_FFFF_FFFF_FFFF - self.cycles,
        {
            if self.cycles > CYCLE_LIMIT {
                return Err(CpuError::CycleLimit);
            }
            proof {
                lemma_step_costs(self@);
            }
            match self.step() {
                Ok(StepOutcome::Continue) => {},
                Ok(StepOutcome::Halted) => {
                    return Ok(());
                },
                Err(e) => {
                    return Err(e);
                },
            }
            callback(&*self);
        }
    }

    /// Runs until `BRK`, and reports the byte that is no instruction, or the
    /// exhausted cycle counter, if the run ends on one. `callback` gets a
    /// snapshot after every instruction but the halting one; taking the
    /// snapshot loads the next opcode byte.
    pub fn try_run_with_trace<F>(&mut self, callback: &mut F) -> (r: Result<(), CpuError>) where
        F: FnMut(TraceState),

        requires
            forall|t: TraceState| call_requires(*old(callback), (t,)),
        ensures
            (final(self)@, r) == old(self)@.run(true),
    {
        let ghost start = self@;
        loop
            invariant
                start == old(self)@,
                self@.run(true) == start.run(true),
                forall|t: TraceState| call_requires(*callback, (t,)),
            decreases 0xFFFF_FFFF_FFFF_FFFF - self.cycles,
        {
            if self.cycles > CYCLE_LIMIT {
                return Err(CpuError::CycleLimit);
            }
            proof {
                lemma_step_costs(self@);
            }
            match self.step() {
                Ok(StepOutcome::Continue) => {},
                Ok(StepOutcome::Halted) => {
                    return Ok(());
                },
                Err(e) => {
                    return Err(e);
                },
            }
            let snapshot: TraceState = self.capture_trace_state();
            callback(snapshot);
        }
    }

    /// Runs until `BRK`, and reports the byte that is no instruction, or the
    /// exhausted cycle counter, if the run ends on one.
    pub fn try_run(&mut self) -> (r: Result<(), CpuError>)
        ensures
            (final(self)@, r) == old(self)@.run(false),
    {
        let mut idle = |cpu: &CPU| {};
        self.try_run_with_callback(&mut idle)
    }

    /// Runs to `BRK`, with `callback` seeing the CPU after every instruction
    /// before it.
    ///
    /// The run must end on `BRK`.
    pub fn run_with_callback<F>(&mut self, callback: F) where F: FnMut(&CPU)
        requires
            forall|cpu: &CPU| call_requires(callback, (cpu,)),
            old(self)@.run(false).1 is Ok,
        ensures
            final(self)@ == old(self)@.run(false).0,
    {
        let mut callback = callback;
        let _ = self.try_run_with_callback(&mut callback);
    }

    /// Runs to `BRK`, with `callback` getting a snapshot after every
    /// instruction before it.
    ///
    /// The run must end on `BRK`.
    pub fn run_with_trace<F>(&mut self, callback: F) where F: FnMut(TraceState)
        requires
            forall|t: TraceState| call_requires(callback, (t,)),
            old(self)@.run(true).1 is Ok,
        ensures
            final(self)@ == old(self)@.run(true).0,
    {
        let mut callback = callback;
        let _ = self.try_run_with_trace(&mut callback);
    }

    /// Runs to `BRK`.
    ///
    /// The run must end on `BRK`.
    pub fn run(&mut self)
        requires
            old(self)@.run(false).1 is Ok,
        ensures
            final(self)@ == old(self)@.run(false).0,
    {
        let _ = self.try_run();
    }

    /// Loads `program` at `$0600`, resets, and runs to `BRK`.
    ///
    /// The program must fit, and its run must end on `BRK`.
    pub fn load_and_run(&mut self, program: Vec<u8>)
        requires
            program.len() <= 0xFA00,
            old(self)@.load(program@).reset().run(false).1 is Ok,
        ensures
            final(self)@ == old(self)@.load(program@).reset().run(false).0,
    {
        self.load(program);
        self.reset();
        self.run();
    }
}

} // verus!
