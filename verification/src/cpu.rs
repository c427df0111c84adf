//! The 6502 interpreter and its memory bus.

use crate::apu::Apu;
use crate::apu::APU_FIRST;
use crate::apu::APU_LAST;
use crate::cpu_state::has_page_cross_penalty;
use crate::cpu_state::high_byte;
use crate::cpu_state::lemma_read_u16_frame;
use crate::cpu_state::low_byte;
use crate::cpu_state::page;
use crate::cpu_state::rotate_left;
use crate::cpu_state::rotate_right;
use crate::cpu_state::shift_left;
use crate::cpu_state::shift_right;
use crate::cpu_state::word;
use crate::cpu_state::CpuState;
use crate::flags::CpuFlags;
use crate::mapper::Mapper;
use crate::mapper::MapperError;
use crate::mapper::NromMapper;
use crate::opcodes::lookup;
pub use crate::opcodes::AddressingMode;
use crate::ppu::Ppu;
use crate::ppu::PpuState;
use crate::rom::Mirroring;
use crate::rom::Rom;
pub use crate::trace::TraceState;
use vstd::prelude::*;

verus! {

/// First address of the stack page.
pub const STACK: u16 = 0x0100;

/// The stack pointer after reset.
pub const STACK_RESET: u8 = 0xfd;

/// Where the address of the non-maskable interrupt handler lies.
pub const NMI_VECTOR: u16 = 0xFFFA;

/// Where the address of the reset handler lies.
pub const RESET_VECTOR: u16 = 0xFFFC;

/// Where the address of the handler of `IRQ` and `BRK` lies.
pub const IRQ_BRK_VECTOR: u16 = 0xFFFE;

/// Where `load` puts a program.
pub const PROGRAM_START: u16 = 0x0600;

/// Why a run stopped short of `BRK`.
#[derive(Debug, PartialEq, Eq, Structural)]
pub enum CpuError {
    /// The byte at `pc` is no documented instruction.
    UnsupportedOpcode { opcode: u8, pc: u16 },
    /// The cycle counter cannot hold another instruction.
    CycleLimit,
}

/// Why a load was refused.
#[derive(Debug, PartialEq, Eq, Structural)]
pub enum CpuLoadError {
    InvalidPrgSize(usize),
    UnsupportedMapper(u8),
}

/// How an instruction left the machine.
#[derive(Debug, Clone, Copy, PartialEq, Eq, Structural)]
pub enum StepOutcome {
    /// The next instruction can be started.
    Continue,
    /// The instruction was `BRK`.
    Halted,
}

/// The CPU with its internal bytes, the APU, the PPU and the cartridge.
pub struct CPU {
    pub register_a: u8,
    pub register_x: u8,
    pub register_y: u8,
    pub status: CpuFlags,
    pub program_counter: u16,
    pub stack_pointer: u8,
    pub cycles: u64,
    pub memory: [u8; 0x10000],
    pub apu: Apu,
    pub ppu: Ppu,
    pub mapper: Option<NromMapper>,
}

impl View for CPU {
    type V = CpuState;

    open spec fn view(&self) -> CpuState {
        CpuState {
            a: self.register_a,
            x: self.register_x,
            y: self.register_y,
            p: self.status.bits,
            pc: self.program_counter,
            sp: self.stack_pointer,
            cycles: self.cycles as nat,
            ram: self.memory@,
            apu: self.apu@,
            ppu: self.ppu@,
            cart: match self.mapper {
                Some(mapper) => Some(mapper@),
                None => None,
            },
        }
    }
}

/// A 16-bit address space of bytes, on which loads may have effects.
///
/// An implementation says through `read_spec` and `write_spec` what a load
/// and a store do to its view; the word accesses are built on the byte
/// accesses and wrap from `$FFFF` to `$0000`.
pub trait Mem: View {
    /// The view a load from `addr` leaves, and the byte it returns.
    spec fn read_spec(state: Self::V, addr: u16) -> (Self::V, u8);

    /// The view a store of `data` to `addr` leaves.
    spec fn write_spec(state: Self::V, addr: u16, data: u8) -> Self::V;

    /// Loads the byte at `addr`.
    fn mem_read(&mut self, addr: u16) -> (data: u8)
        ensures
            (final(self)@, data) == Self::read_spec(old(self)@, addr),
    ;

    /// Stores `data` at `addr`.
    fn mem_write(&mut self, addr: u16, data: u8)
        ensures
            final(self)@ == Self::write_spec(old(self)@, addr, data),
    ;

    /// Loads the low byte from `pos` and the high byte from the address
    /// after it.
    fn mem_read_u16(&mut self, pos: u16) -> (data: u16)
        ensures
            ({
                let (s1, lo) = Self::read_spec(old(self)@, pos);
                let (s2, hi) = Self::read_spec(s1, pos.wrapping_add(1));
                final(self)@ == s2 && data == word(lo, hi)
            }),
    {
        let lo: u16 = self.mem_read(pos) as u16;
        let hi: u16 = self.mem_read(pos.wrapping_add(1)) as u16;
        (hi << 8u16) | lo
    }

    /// Stores the low byte of `data` at `pos` and its high byte at the
    /// address after it.
    fn mem_write_u16(&mut self, pos: u16, data: u16)
        ensures
            final(self)@ == Self::write_spec(
                Self::write_spec(old(self)@, pos, low_byte(data)),
                pos.wrapping_add(1),
                high_byte(data),
            ),
    {
        let hi: u8 = (data >> 8u16) as u8;
        let lo: u8 = (data & 0xffu16) as u8;
        self.mem_write(pos, lo);
        self.mem_write(pos.wrapping_add(1), hi);
    }
}

impl Mem for CPU {
    open spec fn read_spec(state: CpuState, addr: u16) -> (CpuState, u8) {
        state.read(addr)
    }

    open spec fn write_spec(state: CpuState, addr: u16, data: u8) -> CpuState {
        state.write(addr, data)
    }

    /// A load through the bus. Only the PPU can change under a load.
    fn mem_read(&mut self, addr: u16) -> (data: u8)
        ensures
            old(self)@.same_but_ppu(final(self)@),
    {
        reveal(CpuState::read);
        if APU_FIRST <= addr && addr <= APU_LAST {
            self.apu.read_register(addr)
        } else if 0x2000 <= addr && addr < 0x4000 {
            let reg: u16 = 0x2000 + (addr - 0x2000) % 8;
            self.ppu.read_register(reg)
        } else {
            let answer: Option<u8> = match &self.mapper {
                Some(mapper) => mapper.cpu_read(addr),
                None => None,
            };
            match answer {
                Some(data) => data,
                None => self.memory[addr as usize],
            }
        }
    }

    /// A store through the bus.
    fn mem_write(&mut self, addr: u16, data: u8) {
        reveal(CpuState::write);
        if APU_FIRST <= addr && addr <= APU_LAST {
            self.apu.write_register(addr, data);
        } else if 0x2000 <= addr && addr < 0x4000 {
            let reg: u16 = 0x2000 + (addr - 0x2000) % 8;
            self.ppu.write_register(reg, data);
        } else {
            let absorbed: bool = match &mut self.mapper {
                Some(mapper) => mapper.cpu_write(addr, data),
                None => false,
            };
            if !absorbed {
                self.memory[addr as usize] = data;
            }
        }
    }
}

impl CPU {
    /// A CPU at power-on: registers and memory cleared, the stack pointer at
    /// `$FD`, INTERRUPT_DISABLE and the unused bit set, no cartridge.
    pub fn new() -> (cpu: Self)
        ensures
            cpu@ == (CpuState {
                a: 0,
                x: 0,
                y: 0,
                p: 0x24,
                pc: 0,
                sp: 0xFD,
                cycles: 0,
                ram: Seq::new(0x10000, |i: int| 0u8),
                apu: Seq::new(0x18, |i: int| 0u8),
                ppu: PpuState::power_on(Mirroring::Horizontal),
                cart: None,
            }),
    {
        let cpu = CPU {
            register_a: 0,
            register_x: 0,
            register_y: 0,
            status: CpuFlags::from_bits_truncate(0b100100),
            program_counter: 0,
            stack_pointer: STACK_RESET,
            cycles: 0,
            memory: [0; 0x10000],
            apu: Apu::new(),
            ppu: Ppu::new(Mirroring::Horizontal),
            mapper: None,
        };
        assert(cpu@.ram =~= Seq::new(0x10000, |i: int| 0u8));
        cpu
    }

    /// Selects the PPU's nametable layout.
    pub fn set_ppu_mirroring(&mut self, mirroring: Mirroring)
        ensures
            final(self)@ == (CpuState {
                ppu: PpuState { mirroring, ..old(self)@.ppu },
                ..old(self)@
            }),
    {
        self.ppu.set_mirroring(mirroring);
    }

    /// The cycles charged since the last reset.
    pub fn total_cycles(&self) -> (cycles: u64)
        ensures
            cycles == self@.cycles,
    {
        self.cycles
    }
}

impl CPU {
    // ------------------------------------------------------------ flags
    /// Sets CARRY.
    pub fn set_carry_flag(&mut self)
        ensures
            final(self)@ == old(self)@.set_flag(CpuFlags::CARRY, true),
    {
        self.status.insert(CpuFlags::CARRY);
    }

    /// Clears CARRY.
    pub fn clear_carry_flag(&mut self)
        ensures
            final(self)@ == old(self)@.set_flag(CpuFlags::CARRY, false),
    {
        self.status.remove(CpuFlags::CARRY);
    }

    /// Sets ZERO and NEGATIVE from `result`.
    pub fn update_zero_and_negative_flags(&mut self, result: u8)
        ensures
            final(self)@ == old(self)@.set_zn(result),
    {
        self.status.set(CpuFlags::ZERO, result == 0);
        self.status.set(CpuFlags::NEGATIV, result & 0x80u8 != 0);
    }

    /// Loads the accumulator and sets ZERO and NEGATIVE from it.
    pub fn set_register_a(&mut self, value: u8)
        ensures
            final(self)@ == old(self)@.set_a(value),
    {
        self.register_a = value;
        self.update_zero_and_negative_flags(self.register_a);
    }

    // ------------------------------------------------------------ stack
    /// Pushes a byte.
    pub fn stack_push(&mut self, data: u8)
        ensures
            final(self)@ == old(self)@.push(data),
    {
        reveal(CpuState::write);
        self.mem_write(STACK + self.stack_pointer as u16, data);
        self.stack_pointer = self.stack_pointer.wrapping_sub(1);
    }

    /// Pops a byte.
    pub fn stack_pop(&mut self) -> (data: u8)
        ensures
            (final(self)@, data) == old(self)@.pop(),
    {
        reveal(CpuState::read);
        self.stack_pointer = self.stack_pointer.wrapping_add(1);
        self.mem_read(STACK + self.stack_pointer as u16)
    }

    /// Pushes a word, high byte first.
    pub fn stack_push_u16(&mut self, data: u16)
        ensures
            final(self)@ == old(self)@.push_u16(data),
    {
        let hi: u8 = (data >> 8u16) as u8;
        let lo: u8 = (data & 0xffu16) as u8;
        self.stack_push(hi);
        self.stack_push(lo);
    }

    /// Pops a word, low byte first.
    pub fn stack_pop_u16(&mut self) -> (data: u16)
        ensures
            (final(self)@, data) == old(self)@.pop_u16(),
    {
        let lo: u16 = self.stack_pop() as u16;
        let hi: u16 = self.stack_pop() as u16;
        (hi << 8u16) | lo
    }

    // ------------------------------------------------------- addressing
    /// Loads the word whose two bytes lie in the zero page at `ptr` and, with
    /// wrap-around inside the page, after it.
    pub fn zero_page_word(&mut self, ptr: u8) -> (data: u16)
        ensures
            final(self)@ == old(self)@,
            data == old(self)@.zero_page_word(ptr),
    {
        reveal(CpuState::read);
        let lo: u16 = self.mem_read(ptr as u16) as u16;
        let hi: u16 = self.mem_read(ptr.wrapping_add(1) as u16) as u16;
        (hi << 8u16) | lo
    }

    /// Whether indexing takes the operand address to another page.
    pub fn did_page_cross(&mut self, mode: &AddressingMode) -> (crossed: bool)
        ensures
            (final(self)@, crossed) == old(self)@.page_cross(*mode),
            old(self)@.same_but_ppu(final(self)@),
    {
        reveal(CpuState::page_cross);
        proof {
            lemma_read_u16_frame(self@, self@.pc);
        }
        match mode {
            AddressingMode::Absolute_X => {
                let base: u16 = self.mem_read_u16(self.program_counter);
                (base & 0xFF00u16) != (base.wrapping_add(self.register_x as u16) & 0xFF00u16)
            },
            AddressingMode::Absolute_Y => {
                let base: u16 = self.mem_read_u16(self.program_counter);
                (base & 0xFF00u16) != (base.wrapping_add(self.register_y as u16) & 0xFF00u16)
            },
            AddressingMode::Indirect_Y => {
                let pos: u8 = self.mem_read(self.program_counter);
                let base: u16 = self.zero_page_word(pos);
                (base & 0xFF00u16) != (base.wrapping_add(self.register_y as u16) & 0xFF00u16)
            },
            _ => false,
        }
    }

    /// Whether `code` costs a cycle more when its operand crosses a page.
    pub fn opcode_has_page_cross_penalty(code: u8) -> (penalty: bool)
        ensures
            penalty == has_page_cross_penalty(code),
    {
        match code {
            0xBD | 0xB9 | 0xB1 => true,
            0xBE | 0xBC => true,
            0x5D | 0x59 | 0x51 => true,
            0x3D | 0x39 | 0x31 => true,
            0x1D | 0x19 | 0x11 => true,
            0x7D | 0x79 | 0x71 => true,
            0xFD | 0xF9 | 0xF1 => true,
            0xDD | 0xD9 | 0xD1 => true,
            _ => false,
        }
    }

    /// Forms the effective address of the operand at `pc`.
    pub fn get_operand_address(&mut self, mode: &AddressingMode) -> (addr: u16)
        requires
            *mode != AddressingMode::NoneAddressing,
        ensures
            (final(self)@, addr) == old(self)@.operand_address(*mode),
            old(self)@.same_but_ppu(final(self)@),
    {
        reveal(CpuState::operand_address);
        proof {
            lemma_read_u16_frame(self@, self@.pc);
        }
        match mode {
            AddressingMode::Immediate => self.program_counter,
            AddressingMode::ZeroPage => self.mem_read(self.program_counter) as u16,
            AddressingMode::Absolute => self.mem_read_u16(self.program_counter),
            AddressingMode::ZeroPage_X => {
                let pos: u8 = self.mem_read(self.program_counter);
                pos.wrapping_add(self.register_x) as u16
            },
            AddressingMode::ZeroPage_Y => {
                let pos: u8 = self.mem_read(self.program_counter);
                pos.wrapping_add(self.register_y) as u16
            },
            AddressingMode::Absolute_X => {
                let base: u16 = self.mem_read_u16(self.program_counter);
                base.wrapping_add(self.register_x as u16)
            },
            AddressingMode::Absolute_Y => {
                let base: u16 = self.mem_read_u16(self.program_counter);
                base.wrapping_add(self.register_y as u16)
            },
            AddressingMode::Indirect_X => {
                let pos: u8 = self.mem_read(self.program_counter);
                self.zero_page_word(pos.wrapping_add(self.register_x))
            },
            AddressingMode::Indirect_Y => {
                let pos: u8 = self.mem_read(self.program_counter);
                let base: u16 = self.zero_page_word(pos);
                base.wrapping_add(self.register_y as u16)
            },
            AddressingMode::NoneAddressing => 0,
        }
    }

    /// Loads the operand at `pc`.
    pub fn fetch_operand(&mut self, mode: &AddressingMode) -> (value: u8)
        requires
            *mode != AddressingMode::NoneAddressing,
        ensures
            (final(self)@, value) == old(self)@.operand(*mode),
            old(self)@.same_but_ppu(final(self)@),
    {
        let addr: u16 = self.get_operand_address(mode);
        self.mem_read(addr)
    }

    // ----------------------------------------------------- instructions
    /// `LDA`: loads the accumulator.
    pub fn lda(&mut self, mode: &AddressingMode)
        requires
            *mode != AddressingMode::NoneAddressing,
        ensures
            final(self)@ == old(self)@.lda(*mode),
    {
        let value: u8 = self.fetch_operand(mode);
        self.set_register_a(value);
    }

    /// `LDX`: loads the X register.
    pub fn ldx(&mut self, mode: &AddressingMode)
        requires
            *mode != AddressingMode::NoneAddressing,
        ensures
            final(self)@ == old(self)@.ldx(*mode),
    {
        let value: u8 = self.fetch_operand(mode);
        self.register_x = value;
        self.update_zero_and_negative_flags(self.register_x);
    }

    /// `LDY`: loads the Y register.
    pub fn ldy(&mut self, mode: &AddressingMode)
        requires
            *mode != AddressingMode::NoneAddressing,
        ensures
            final(self)@ == old(self)@.ldy(*mode),
    {
        let value: u8 = self.fetch_operand(mode);
        self.register_y = value;
        self.update_zero_and_negative_flags(self.register_y);
    }

    /// `STA`: stores the accumulator.
    pub fn sta(&mut self, mode: &AddressingMode)
        requires
            *mode != AddressingMode::NoneAddressing,
        ensures
            final(self)@ == old(self)@.store(*mode, old(self)@.a),
    {
        let addr: u16 = self.get_operand_address(mode);
        self.mem_write(addr, self.register_a);
    }

    /// `STX`: stores the X register.
    pub fn stx(&mut self, mode: &AddressingMode)
        requires
            *mode != AddressingMode::NoneAddressing,
        ensures
            final(self)@ == old(self)@.store(*mode, old(self)@.x),
    {
        let addr: u16 = self.get_operand_address(mode);
        self.mem_write(addr, self.register_x);
    }

    /// `STY`: stores the Y register.
    pub fn sty(&mut self, mode: &AddressingMode)
        requires
            *mode != AddressingMode::NoneAddressing,
        ensures
            final(self)@ == old(self)@.store(*mode, old(self)@.y),
    {
        let addr: u16 = self.get_operand_address(mode);
        self.mem_write(addr, self.register_y);
    }

    /// `TAX`: copies the accumulator to X.
    pub fn tax(&mut self)
        ensures
            final(self)@ == old(self)@.set_x(old(self)@.a),
    {
        self.register_x = self.register_a;
        self.update_zero_and_negative_flags(self.register_x);
    }

    /// `TAY`: copies the accumulator to Y.
    pub fn tay(&mut self)
        ensures
            final(self)@ == old(self)@.set_y(old(self)@.a),
    {
        self.register_y = self.register_a;
        self.update_zero_and_negative_flags(self.register_y);
    }

    /// `TSX`: copies the stack pointer to X.
    pub fn tsx(&mut self)
        ensures
            final(self)@ == old(self)@.set_x(old(self)@.sp),
    {
        self.register_x = self.stack_pointer;
        self.update_zero_and_negative_flags(self.register_x);
    }

    /// `TXA`: copies X to the accumulator.
    pub fn txa(&mut self)
        ensures
            final(self)@ == old(self)@.set_a(old(self)@.x),
    {
        self.set_register_a(self.register_x);
    }

    /// `TXS`: copies X to the stack pointer; no flag changes.
    pub fn txs(&mut self)
        ensures
            final(self)@ == (CpuState { sp: old(self)@.x, ..old(self)@ }),
    {
        self.stack_pointer = self.register_x;
    }

    /// `TYA`: copies Y to the accumulator.
    pub fn tya(&mut self)
        ensures
            final(self)@ == old(self)@.set_a(old(self)@.y),
    {
        self.set_register_a(self.register_y);
    }

    /// `INX`: X plus one, modulo 256.
    pub fn inx(&mut self)
        ensures
            final(self)@ == old(self)@.set_x(old(self)@.x.wrapping_add(1)),
    {
        self.register_x = self.register_x.wrapping_add(1);
        self.update_zero_and_negative_flags(self.register_x);
    }

    /// `INY`: Y plus one, modulo 256.
    pub fn iny(&mut self)
        ensures
            final(self)@ == old(self)@.set_y(old(self)@.y.wrapping_add(1)),
    {
        self.register_y = self.register_y.wrapping_add(1);
        self.update_zero_and_negative_flags(self.register_y);
    }

    /// `DEX`: X minus one, modulo 256.
    pub fn dex(&mut self)
        ensures
            final(self)@ == old(self)@.set_x(old(self)@.x.wrapping_sub(1)),
    {
        self.register_x = self.register_x.wrapping_sub(1);
        self.update_zero_and_negative_flags(self.register_x);
    }

    /// `DEY`: Y minus one, modulo 256.
    pub fn dey(&mut self)
        ensures
            final(self)@ == old(self)@.set_y(old(self)@.y.wrapping_sub(1)),
    {
        self.register_y = self.register_y.wrapping_sub(1);
        self.update_zero_and_negative_flags(self.register_y);
    }

    /// `AND`: the accumulator and the operand, bit by bit.
    pub fn and(&mut self, mode: &AddressingMode)
        requires
            *mode != AddressingMode::NoneAddressing,
        ensures
            final(self)@ == old(self)@.and(*mode),
    {
        let value: u8 = self.fetch_operand(mode);
        self.set_register_a(value & self.register_a);
    }

    /// `EOR`: the accumulator or else the operand, bit by bit.
    pub fn eor(&mut self, mode: &AddressingMode)
        requires
            *mode != AddressingMode::NoneAddressing,
        ensures
            final(self)@ == old(self)@.eor(*mode),
    {
        let value: u8 = self.fetch_operand(mode);
        self.set_register_a(value ^ self.register_a);
    }

    /// `ORA`: the accumulator or the operand, bit by bit.
    pub fn ora(&mut self, mode: &AddressingMode)
        requires
            *mode != AddressingMode::NoneAddressing,
        ensures
            final(self)@ == old(self)@.ora(*mode),
    {
        let value: u8 = self.fetch_operand(mode);
        self.set_register_a(value | self.register_a);
    }

    /// Adds `data` and CARRY to the accumulator.
    pub fn add_to_register_a(&mut self, data: u8)
        ensures
            final(self)@ == old(self)@.add_with_carry(data),
    {
        let carry_in: u16 = if self.status.contains(CpuFlags::CARRY) {
            1
        } else {
            0
        };
        let sum: u16 = self.register_a as u16 + data as u16 + carry_in;
        self.status.set(CpuFlags::CARRY, sum > 0xff);
        let result: u8 = (sum % 256) as u8;
        self.status.set(
            CpuFlags::OVERFLOW,
            (data ^ result) & (result ^ self.register_a) & 0x80u8 != 0,
        );
        self.set_register_a(result);
    }

    /// `ADC`: adds the operand and CARRY to the accumulator.
    pub fn adc(&mut self, mode: &AddressingMode)
        requires
            *mode != AddressingMode::NoneAddressing,
        ensures
            final(self)@ == old(self)@.adc(*mode),
    {
        let value: u8 = self.fetch_operand(mode);
        self.add_to_register_a(value);
    }

    /// Subtracts the operand and the borrow by adding the operand's one's
    /// complement.
    pub fn sbc(&mut self, mode: &AddressingMode)
        requires
            *mode != AddressingMode::NoneAddressing,
        ensures
            final(self)@ == old(self)@.sbc(*mode),
    {
        let value: u8 = self.fetch_operand(mode);
        proof {
            crate::cpu_laws::lemma_sbc_is_adc_of_complement(self@, value);
        }
        self.add_to_register_a(!value);
    }

    /// `ASL A`: shifts the accumulator left.
    pub fn asl_accumulator(&mut self)
        ensures
            final(self)@ == old(self)@.asl_a(),
    {
        let data: u8 = self.register_a;
        self.status.set(CpuFlags::CARRY, data & 0x80u8 != 0);
        self.set_register_a(data << 1u8);
    }

    /// `LSR A`: shifts the accumulator right.
    pub fn lsr_accumulator(&mut self)
        ensures
            final(self)@ == old(self)@.lsr_a(),
    {
        let data: u8 = self.register_a;
        self.status.set(CpuFlags::CARRY, data & 0x01u8 != 0);
        self.set_register_a(data >> 1u8);
    }

    /// `ROL A`: rotates the accumulator left through CARRY.
    pub fn rol_accumulator(&mut self)
        ensures
            final(self)@ == old(self)@.rol_a(),
    {
        let data: u8 = self.register_a;
        let old_carry: bool = self.status.contains(CpuFlags::CARRY);
        self.status.set(CpuFlags::CARRY, data & 0x80u8 != 0);
        let rotated: u8 = if old_carry {
            (data << 1u8) | 0x01u8
        } else {
            data << 1u8
        };
        self.set_register_a(rotated);
    }

    /// `ROR A`: rotates the accumulator right through CARRY.
    pub fn ror_accumulator(&mut self)
        ensures
            final(self)@ == old(self)@.ror_a(),
    {
        let data: u8 = self.register_a;
        let old_carry: bool = self.status.contains(CpuFlags::CARRY);
        self.status.set(CpuFlags::CARRY, data & 0x01u8 != 0);
        let rotated: u8 = if old_carry {
            (data >> 1u8) | 0x80u8
        } else {
            data >> 1u8
        };
        self.set_register_a(rotated);
    }

    /// `ASL`: shifts the operand left. Answers the byte it stored.
    pub fn asl(&mut self, mode: &AddressingMode) -> (data: u8)
        requires
            *mode != AddressingMode::NoneAddressing,
        ensures
            final(self)@ == old(self)@.asl(*mode),
            data == shift_left(old(self)@.operand(*mode).1).0,
    {
        let addr: u16 = self.get_operand_address(mode);
        let value: u8 = self.mem_read(addr);
        self.status.set(CpuFlags::CARRY, value & 0x80u8 != 0);
        let data: u8 = value << 1u8;
        self.mem_write(addr, data);
        self.update_zero_and_negative_flags(data);
        data
    }

    /// `LSR`: shifts the operand right. Answers the byte it stored.
    pub fn lsr(&mut self, mode: &AddressingMode) -> (data: u8)
        requires
            *mode != AddressingMode::NoneAddressing,
        ensures
            final(self)@ == old(self)@.lsr(*mode),
            data == shift_right(old(self)@.operand(*mode).1).0,
    {
        let addr: u16 = self.get_operand_address(mode);
        let value: u8 = self.mem_read(addr);
        self.status.set(CpuFlags::CARRY, value & 0x01u8 != 0);
        let data: u8 = value >> 1u8;
        self.mem_write(addr, data);
        self.update_zero_and_negative_flags(data);
        data
    }

    /// `ROL`: rotates the operand left through CARRY. Answers the byte it
    /// stored.
    pub fn rol(&mut self, mode: &AddressingMode) -> (data: u8)
        requires
            *mode != AddressingMode::NoneAddressing,
        ensures
            final(self)@ == old(self)@.rol(*mode),
            data == rotate_left(old(self)@.operand(*mode).1, old(self)@.flag(CpuFlags::CARRY)).0,
    {
        let old_carry: bool = self.status.contains(CpuFlags::CARRY);
        let addr: u16 = self.get_operand_address(mode);
        let value: u8 = self.mem_read(addr);
        self.status.set(CpuFlags::CARRY, value & 0x80u8 != 0);
        let data: u8 = if old_carry {
            (value << 1u8) | 0x01u8
        } else {
            value << 1u8
        };
        self.mem_write(addr, data);
        self.update_zero_and_negative_flags(data);
        data
    }

    /// `ROR`: rotates the operand right through CARRY. Answers the byte it
    /// stored.
    pub fn ror(&mut self, mode: &AddressingMode) -> (data: u8)
        requires
            *mode != AddressingMode::NoneAddressing,
        ensures
            final(self)@ == old(self)@.ror(*mode),
            data == rotate_right(old(self)@.operand(*mode).1, old(self)@.flag(CpuFlags::CARRY)).0,
    {
        let old_carry: bool = self.status.contains(CpuFlags::CARRY);
        let addr: u16 = self.get_operand_address(mode);
        let value: u8 = self.mem_read(addr);
        self.status.set(CpuFlags::CARRY, value & 0x01u8 != 0);
        let data: u8 = if old_carry {
            (value >> 1u8) | 0x80u8
        } else {
            value >> 1u8
        };
        self.mem_write(addr, data);
        self.update_zero_and_negative_flags(data);
        data
    }

    /// `INC`: the operand plus one, modulo 256. Answers the byte it stored.
    pub fn inc(&mut self, mode: &AddressingMode) -> (data: u8)
        requires
            *mode != AddressingMode::NoneAddressing,
        ensures
            final(self)@ == old(self)@.inc(*mode),
            data == old(self)@.operand(*mode).1.wrapping_add(1),
    {
        let addr: u16 = self.get_operand_address(mode);
        let data: u8 = self.mem_read(addr).wrapping_add(1);
        self.mem_write(addr, data);
        self.update_zero_and_negative_flags(data);
        data
    }

    /// `DEC`: the operand minus one, modulo 256. Answers the byte it stored.
    pub fn dec(&mut self, mode: &AddressingMode) -> (data: u8)
        requires
            *mode != AddressingMode::NoneAddressing,
        ensures
            final(self)@ == old(self)@.dec(*mode),
            data == old(self)@.operand(*mode).1.wrapping_sub(1),
    {
        let addr: u16 = self.get_operand_address(mode);
        let data: u8 = self.mem_read(addr).wrapping_sub(1);
        self.mem_write(addr, data);
        self.update_zero_and_negative_flags(data);
        data
    }

    /// Compares `compare_with` with the operand.
    pub fn compare(&mut self, mode: &AddressingMode, compare_with: u8)
        requires
            *mode != AddressingMode::NoneAddressing,
        ensures
            final(self)@ == old(self)@.compare(*mode, compare_with),
    {
        let value: u8 = self.fetch_operand(mode);
        self.status.set(CpuFlags::CARRY, value <= compare_with);
        self.update_zero_and_negative_flags(compare_with.wrapping_sub(value));
    }

    /// `BIT`: tests the operand against the accumulator.
    pub fn bit(&mut self, mode: &AddressingMode)
        requires
            *mode != AddressingMode::NoneAddressing,
        ensures
            final(self)@ == old(self)@.bit(*mode),
    {
        let value: u8 = self.fetch_operand(mode);
        self.status.set(CpuFlags::ZERO, self.register_a & value == 0);
        self.status.set(CpuFlags::NEGATIV, value & 0x80u8 != 0);
        self.status.set(CpuFlags::OVERFLOW, value & 0x40u8 != 0);
    }

    /// Branches if `condition` holds. Answers whether the branch was taken
    /// and whether it crossed a page.
    pub fn branch(&mut self, condition: bool) -> (taken_crossed: (bool, bool))
        ensures
            (final(self)@, taken_crossed.0, taken_crossed.1) == old(self)@.branch(condition),
    {
        if !condition {
            return (false, false);
        }
        let offset: u8 = self.mem_read(self.program_counter);
        let base: u16 = self.program_counter.wrapping_add(1);
        let target: u16 = if offset < 0x80 {
            base.wrapping_add(offset as u16)
        } else {
            base.wrapping_sub(0x100 - offset as u16)
        };
        self.program_counter = target;
        (true, (base & 0xFF00u16) != (target & 0xFF00u16))
    }

    /// `JMP`: jumps to the address in the operand.
    pub fn jmp_absolute(&mut self)
        ensures
            final(self)@ == old(self)@.jmp_absolute(),
    {
        let target: u16 = self.mem_read_u16(self.program_counter);
        self.program_counter = target;
    }

    /// `JMP (ind)`: jumps to the address that the operand points at.
    pub fn jmp_indirect(&mut self)
        ensures
            final(self)@ == old(self)@.jmp_indirect(),
    {
        let ptr: u16 = self.mem_read_u16(self.program_counter);
        let target: u16 = if ptr & 0x00FFu16 == 0x00FF {
            let lo: u16 = self.mem_read(ptr) as u16;
            let hi: u16 = self.mem_read(ptr & 0xFF00u16) as u16;
            (hi << 8u16) | lo
        } else {
            self.mem_read_u16(ptr)
        };
        self.program_counter = target;
    }

    /// `JSR`: calls the subroutine at the address in the operand.
    pub fn jsr(&mut self)
        ensures
            final(self)@ == old(self)@.jsr(),
    {
        let operand: u16 = self.program_counter;
        self.stack_push_u16(operand.wrapping_add(1));
        let target: u16 = self.mem_read_u16(operand);
        self.program_counter = target;
    }

    /// `RTS`: returns from a subroutine.
    pub fn rts(&mut self)
        ensures
            final(self)@ == old(self)@.rts(),
    {
        self.program_counter = self.stack_pop_u16().wrapping_add(1);
    }

    /// `RTI`: returns from an interrupt.
    pub fn rti(&mut self)
        ensures
            final(self)@ == old(self)@.rti(),
    {
        self.plp();
        self.program_counter = self.stack_pop_u16();
    }

    /// `PHA`: pushes the accumulator.
    pub fn pha(&mut self)
        ensures
            final(self)@ == old(self)@.pha(),
    {
        self.stack_push(self.register_a);
    }

    /// `PLA`: pulls the accumulator.
    pub fn pla(&mut self)
        ensures
            final(self)@ == old(self)@.pla(),
    {
        let data: u8 = self.stack_pop();
        self.set_register_a(data);
    }

    /// `PHP`: pushes the status with BREAK and the unused bit set.
    pub fn php(&mut self)
        ensures
            final(self)@ == old(self)@.php(),
    {
        let mut flags: CpuFlags = self.status;
        flags.insert(CpuFlags::BREAK);
        flags.insert(CpuFlags::BREAK2);
        self.stack_push(flags.bits());
    }

    /// `PLP`: pulls the status, with BREAK clear and the unused bit set.
    pub fn plp(&mut self)
        ensures
            final(self)@ == old(self)@.plp(),
    {
        let bits: u8 = self.stack_pop();
        self.status = CpuFlags::from_bits_truncate(bits);
        self.status.remove(CpuFlags::BREAK);
        self.status.insert(CpuFlags::BREAK2);
    }
}

impl CPU {
    // ---------------------------------------------------------- loading
    /// Copies `program` to `$0600` and points the reset vector at it.
    ///
    /// The program must fit between `$0600` and the end of the address
    /// space.
    pub fn load(&mut self, program: Vec<u8>)
        requires
            program.len() <= 0xFA00,
        ensures
            final(self)@ == old(self)@.load(program@),
    {
        let ghost start = self@;
        let mut i: usize = 0;
        while i < program.len()
            invariant
                i <= program.len() <= 0xFA00,
                self@ == (CpuState { ram: self@.ram, ..start }),
                self@.ram.len() == 0x10000,
                forall|k: int|
                    0 <= k < 0x10000 ==> self@.ram[k] == if 0x0600 <= k < 0x0600 + i {
                        program@[k - 0x0600]
                    } else {
                        start.ram[k]
                    },
            decreases program.len() - i,
        {
            self.memory[PROGRAM_START as usize + i] = program[i];
            i = i + 1;
        }
        assert(self@.ram =~= Seq::new(
            0x10000,
            |k: int|
                if 0x0600 <= k < 0x0600 + program@.len() {
                    program@[k - 0x0600]
                } else {
                    start.ram[k]
                },
        ));
        self.mem_write_u16(RESET_VECTOR, PROGRAM_START);
    }

    /// Copies a PRG image of one or two banks to `$8000..=$FFFF`, a single
    /// bank to both halves, and takes the cartridge out. An image of any
    /// other size is refused, and nothing changes.
    pub fn load_prg_rom(&mut self, prg_rom: &[u8]) -> (r: Result<(), CpuLoadError>)
        ensures
            prg_rom@.len() == 0x4000 || prg_rom@.len() == 0x8000 ==> r is Ok && final(self)@ == old(
                self,
            )@.load_prg(prg_rom@),
            prg_rom@.len() != 0x4000 && prg_rom@.len() != 0x8000 ==> r == Err::<(), CpuLoadError>(
                CpuLoadError::InvalidPrgSize(prg_rom@.len() as usize),
            ) && final(self)@ == old(self)@,
    {
        let size: usize = prg_rom.len();
        if size != 0x4000 && size != 0x8000 {
            return Err(CpuLoadError::InvalidPrgSize(size));
        }
        let ghost start = self@;
        self.mapper = None;
        let mut i: usize = 0;
        while i < 0x8000
            invariant
                i <= 0x8000,
                size == prg_rom@.len(),
                size == 0x4000 || size == 0x8000,
                self@ == (CpuState { ram: self@.ram, cart: None, ..start }),
                self@.ram.len() == 0x10000,
                forall|k: int|
                    0 <= k < 0x10000 ==> self@.ram[k] == if 0x8000 <= k < 0x8000 + i {
                        prg_rom@[(k - 0x8000) % (size as int)]
                    } else {
                        start.ram[k]
                    },
            decreases 0x8000 - i,
        {
            self.memory[0x8000 + i] = prg_rom[i % size];
            i = i + 1;
        }
        assert(self@.ram =~= start.load_prg(prg_rom@).ram);
        Ok(())
    }

    /// Puts a cartridge in: its mapper answers the CPU from `$8000` on, and
    /// the PPU takes its mirroring. A cartridge that is refused changes
    /// nothing.
    pub fn load_cartridge(&mut self, rom: Rom) -> (r: Result<(), CpuLoadError>)
        ensures
            match r {
                Ok(()) => old(self)@.load_cartridge(rom@) == Ok::<CpuState, CpuLoadError>(
                    final(self)@,
                ),
                Err(e) => old(self)@.load_cartridge(rom@) == Err::<CpuState, CpuLoadError>(e)
                    && final(self)@ == old(self)@,
            },
    {
        if rom.mapper != 0 {
            return Err(CpuLoadError::UnsupportedMapper(rom.mapper));
        }
        let mirroring: Mirroring = rom.mirroring;
        let mapper: NromMapper = match NromMapper::new(rom.prg_rom, rom.chr_rom, rom.has_chr_ram) {
            Ok(mapper) => mapper,
            Err(MapperError::InvalidPrgSize(size)) => {
                return Err(CpuLoadError::InvalidPrgSize(size));
            },
        };
        self.set_ppu_mirroring(mirroring);
        self.mapper = Some(mapper);
        Ok(())
    }

    // ------------------------------------------------- reset, interrupts
    /// Resets the registers and loads the program counter from `$FFFC`.
    pub fn reset(&mut self)
        ensures
            final(self)@ == old(self)@.reset(),
    {
        self.register_a = 0;
        self.register_x = 0;
        self.register_y = 0;
        self.stack_pointer = STACK_RESET;
        self.status = CpuFlags::from_bits_truncate(0b100100);
        self.cycles = 0;
        self.program_counter = self.mem_read_u16(RESET_VECTOR);
    }

    /// Pushes the frame of an interrupt: the program counter and the status.
    pub fn push_interrupt_state(&mut self, break_flag: bool)
        ensures
            final(self)@ == old(self)@.push_interrupt_state(break_flag),
    {
        self.stack_push_u16(self.program_counter);
        let mut status: CpuFlags = self.status;
        status.set(CpuFlags::BREAK, break_flag);
        status.insert(CpuFlags::BREAK2);
        self.stack_push(status.bits());
    }

    /// Enters the interrupt whose handler address lies at `vector`.
    fn interrupt(&mut self, vector: u16, break_flag: bool)
        ensures
            final(self)@ == old(self)@.interrupt(vector, break_flag),
    {
        self.push_interrupt_state(break_flag);
        self.status.insert(CpuFlags::INTERRUPT_DISABLE);
        self.program_counter = self.mem_read_u16(vector);
    }

    /// Enters the non-maskable interrupt.
    pub fn trigger_nmi(&mut self)
        ensures
            final(self)@ == old(self)@.nmi(),
    {
        self.interrupt(NMI_VECTOR, false);
    }

    /// Enters the maskable interrupt unless INTERRUPT_DISABLE is set.
    /// Answers whether it was entered.
    pub fn trigger_irq(&mut self) -> (handled: bool)
        ensures
            (final(self)@, handled) == old(self)@.irq(),
    {
        if self.status.contains(CpuFlags::INTERRUPT_DISABLE) {
            return false;
        }
        self.interrupt(IRQ_BRK_VECTOR, false);
        true
    }

    /// Enters the software interrupt.
    pub fn trigger_brk(&mut self)
        ensures
            final(self)@ == old(self)@.brk(),
    {
        self.interrupt(IRQ_BRK_VECTOR, true);
    }

    // ---------------------------------------------------------- tracing
    /// Takes a snapshot for a trace. This loads the opcode byte at the
    /// program counter through the bus.
    pub fn capture_trace_state(&mut self) -> (t: TraceState)
        ensures
            (final(self)@, t) == old(self)@.snapshot(),
    {
        let pc: u16 = self.program_counter;
        let opcode: u8 = self.mem_read(pc);
        let mnemonic: &'static str = match lookup(opcode) {
            Some(row) => row.mnemonic,
            None => "???",
        };
        TraceState {
            pc,
            opcode,
            mnemonic,
            register_a: self.register_a,
            register_x: self.register_x,
            register_y: self.register_y,
            status: self.status.bits(),
            stack_pointer: self.stack_pointer,
        }
    }

    /// Takes a snapshot for a trace.
    pub fn current_trace_state(&mut self) -> (t: TraceState)
        ensures
            (final(self)@, t) == old(self)@.snapshot(),
    {
        self.capture_trace_state()
    }
}

} // verus!
