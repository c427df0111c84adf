//! The mathematical model of the machine: the state of the CPU and of all
//! that hangs on its bus, and what each instruction makes of it.
//!
//! A bus read can change the state, since the PPU's status and data ports
//! react to reads, so every function that reads returns the state it leaves
//! beside the value it read.

use crate::apu::apu_read;
use crate::apu::apu_write;
use crate::apu::is_apu_register;
use crate::cpu::CpuError;
use crate::cpu::CpuLoadError;
use crate::cpu::StepOutcome;
use crate::flags::has_flag;
use crate::flags::with_flag;
use crate::flags::BREAK;
use crate::flags::BREAK2;
use crate::flags::CARRY;
use crate::flags::DECIMAL_MODE;
use crate::flags::INTERRUPT_DISABLE;
use crate::flags::NEGATIVE;
use crate::flags::OVERFLOW;
use crate::flags::ZERO;
use crate::mapper::nrom_new;
use crate::mapper::MapperError;
use crate::mapper::NromState;
use crate::opcodes::opcode_table;
use crate::opcodes::AddressingMode;
use crate::ppu::PpuState;
use crate::rom::CartridgeImage;
use crate::trace::TraceState;
use vstd::prelude::*;

verus! {

/// The largest cycle count from which one more instruction is started: the
/// costliest instruction takes nine cycles, and the counter has 64 bits.
pub const CYCLE_LIMIT: u64 = 0xFFFF_FFFF_FFFF_FFF6;

/// The 16-bit word with low byte `lo` and high byte `hi`.
pub open spec fn word(lo: u8, hi: u8) -> u16 {
    ((hi as u16) << 8u16) | (lo as u16)
}

/// The low byte of `w`.
pub open spec fn low_byte(w: u16) -> u8 {
    (w & 0xffu16) as u8
}

/// The high byte of `w`.
pub open spec fn high_byte(w: u16) -> u8 {
    (w >> 8u16) as u8
}

/// The page, as an address with a zero low byte, on which `addr` lies.
pub open spec fn page(addr: u16) -> u16 {
    addr & 0xFF00u16
}

/// The PPU register that a CPU address in `$2000..=$3FFF` selects: the
/// eight registers repeat through the whole range.
pub open spec fn ppu_register(addr: u16) -> u16 {
    (0x2000 + (addr - 0x2000) % 8) as u16
}

/// The address of the stack slot that `sp` points at, on page 1.
pub open spec fn stack_addr(sp: u8) -> u16 {
    (0x0100 + sp) as u16
}

/// Where a taken branch lands: `base` plus `offset`, read as a signed byte,
/// modulo 65536.
pub open spec fn branch_target(base: u16, offset: u8) -> u16 {
    if offset < 0x80 {
        base.wrapping_add(offset as u16)
    } else {
        base.wrapping_sub((0x100 - offset) as u16)
    }
}

/// The instructions that cost one cycle more when their indexed operand
/// address lies on another page than its base: the indexed absolute and
/// indirect-indexed forms of `LDA`, `LDX`, `LDY`, `EOR`, `AND`, `ORA`, `ADC`,
/// `SBC` and the accumulator compare.
pub open spec fn has_page_cross_penalty(code: u8) -> bool {
    match code {
        0xBD | 0xB9 | 0xB1 => true,
        0xBE | 0xBC => true,
        0x5D | 0x59 | 0x51 => true,
        0x3D | 0x39 | 0x31 => true,
        0x1D | 0x19 | 0x11 => true,
        0x7D | 0x79 | 0x71 => true,
        0xFD | 0xF9 | 0xF1 => true,
        0xDD | 0xD9 | 0xD1 => true,
        _ => false,
    }
}

/// The instructions that form an operand address from their addressing
/// mode: the loads, stores, arithmetic and logic, compares, the bit test,
/// and the shifts, increments and decrements of memory.
pub open spec fn addresses_operand(code: u8) -> bool {
    match code {
        0xA9 | 0xA5 | 0xB5 | 0xAD | 0xBD | 0xB9 | 0xA1 | 0xB1 => true,
        0xA2 | 0xA6 | 0xB6 | 0xAE | 0xBE => true,
        0xA0 | 0xA4 | 0xB4 | 0xAC | 0xBC => true,
        0x85 | 0x95 | 0x8D | 0x9D | 0x99 | 0x81 | 0x91 => true,
        0x86 | 0x96 | 0x8E => true,
        0x84 | 0x94 | 0x8C => true,
        0x69 | 0x65 | 0x75 | 0x6D | 0x7D | 0x79 | 0x61 | 0x71 => true,
        0xE9 | 0xE5 | 0xF5 | 0xED | 0xFD | 0xF9 | 0xE1 | 0xF1 => true,
        0x29 | 0x25 | 0x35 | 0x2D | 0x3D | 0x39 | 0x21 | 0x31 => true,
        0x49 | 0x45 | 0x55 | 0x4D | 0x5D | 0x59 | 0x41 | 0x51 => true,
        0x09 | 0x05 | 0x15 | 0x0D | 0x1D | 0x19 | 0x01 | 0x11 => true,
        0x06 | 0x16 | 0x0E | 0x1E => true,
        0x46 | 0x56 | 0x4E | 0x5E => true,
        0x26 | 0x36 | 0x2E | 0x3E => true,
        0x66 | 0x76 | 0x6E | 0x7E => true,
        0xE6 | 0xF6 | 0xEE | 0xFE => true,
        0xC6 | 0xD6 | 0xCE | 0xDE => true,
        0xC9 | 0xC5 | 0xD5 | 0xCD | 0xDD | 0xD9 | 0xC1 | 0xD1 => true,
        0xE0 | 0xE4 | 0xEC => true,
        0xC0 | 0xC4 | 0xCC => true,
        0x24 | 0x2C => true,
        _ => false,
    }
}

/// In the instruction table, exactly the instructions that form an operand
/// address have an addressing mode.
pub proof fn lemma_operand_modes(code: u8)
    ensures
        opcode_table(code) matches Some(row) ==> (addresses_operand(code) <==> row.mode
            != AddressingMode::NoneAddressing),
        opcode_table(code) is None ==> !addresses_operand(code),
{
}

/// Shift left by one: the result, and the bit that leaves at the top.
pub open spec fn shift_left(value: u8) -> (u8, bool) {
    (value << 1u8, value & 0x80u8 != 0)
}

/// Shift right by one: the result, and the bit that leaves at the bottom.
pub open spec fn shift_right(value: u8) -> (u8, bool) {
    (value >> 1u8, value & 0x01u8 != 0)
}

/// Rotate left by one through the carry: `carry` enters at the bottom.
pub open spec fn rotate_left(value: u8, carry: bool) -> (u8, bool) {
    (
        if carry {
            (value << 1u8) | 0x01u8
        } else {
            value << 1u8
        },
        value & 0x80u8 != 0,
    )
}

/// Rotate right by one through the carry: `carry` enters at the top.
pub open spec fn rotate_right(value: u8, carry: bool) -> (u8, bool) {
    (
        if carry {
            (value >> 1u8) | 0x80u8
        } else {
            value >> 1u8
        },
        value & 0x01u8 != 0,
    )
}

/// The registers of the CPU and everything its bus reaches.
pub ghost struct CpuState {
    pub a: u8,
    pub x: u8,
    pub y: u8,
    pub p: u8,
    pub pc: u16,
    pub sp: u8,
    pub cycles: nat,
    pub ram: Seq<u8>,
    pub apu: Seq<u8>,
    pub ppu: PpuState,
    pub cart: Option<NromState>,
}

impl CpuState {
    /// The memories have their hardware sizes.
    pub open spec fn wf(self) -> bool {
        &&& self.ram.len() == 0x10000
        &&& self.apu.len() == 0x18
        &&& self.ppu.wf()
        &&& (self.cart matches Some(cart) ==> cart.wf())
    }

    /// Whether `after` differs from `self` in the PPU at most: what a load
    /// can change.
    pub open spec fn same_but_ppu(self, after: CpuState) -> bool {
        after == (CpuState { ppu: after.ppu, ..self })
    }

    // ---------------------------------------------------------------- bus
    /// What the cartridge answers to a load from `addr`, if there is a
    /// cartridge and it decodes the address.
    pub open spec fn cart_read(self, addr: u16) -> Option<u8> {
        match self.cart {
            Some(cart) => cart.cpu_read(addr),
            None => None,
        }
    }

    /// Whether there is a cartridge that absorbs a store to `addr`.
    pub open spec fn cart_accepts(self, addr: u16) -> bool {
        match self.cart {
            Some(cart) => cart.cpu_accepts(addr),
            None => false,
        }
    }

    /// A load from `addr`: the state it leaves and the byte it returns.
    ///
    /// `$4000..=$4017` is the APU, `$2000..=$3FFF` the PPU's registers; from
    /// `$8000` on the cartridge answers if there is one; everything else, and
    /// the upper half without a cartridge, is the internal byte array.
    #[verifier::opaque]
    pub open spec fn read(self, addr: u16) -> (CpuState, u8) {
        if is_apu_register(addr) {
            (self, apu_read(self.apu, addr))
        } else if 0x2000 <= addr < 0x4000 {
            let (ppu, data) = self.ppu.read_register(ppu_register(addr));
            (CpuState { ppu, ..self }, data)
        } else if self.cart_read(addr) is Some {
            (self, self.cart_read(addr)->0)
        } else {
            (self, self.ram[addr as int])
        }
    }

    /// The state after a store of `data` to `addr`. The cartridge absorbs,
    /// and drops, every store from `$8000` on.
    #[verifier::opaque]
    pub open spec fn write(self, addr: u16, data: u8) -> CpuState {
        if is_apu_register(addr) {
            CpuState { apu: apu_write(self.apu, addr, data), ..self }
        } else if 0x2000 <= addr < 0x4000 {
            CpuState { ppu: self.ppu.write_register(ppu_register(addr), data), ..self }
        } else if self.cart_accepts(addr) {
            self
        } else {
            CpuState { ram: self.ram.update(addr as int, data), ..self }
        }
    }

    /// A load of the word at `pos`: low byte at `pos`, high byte at the next
    /// address, which after `$FFFF` is `$0000`.
    pub open spec fn read_u16(self, pos: u16) -> (CpuState, u16) {
        let (s1, lo) = self.read(pos);
        let (s2, hi) = s1.read(pos.wrapping_add(1));
        (s2, word(lo, hi))
    }

    /// The state after a store of the word `data` at `pos`: low byte first.
    pub open spec fn write_u16(self, pos: u16, data: u16) -> CpuState {
        self.write(pos, low_byte(data)).write(pos.wrapping_add(1), high_byte(data))
    }

    // -------------------------------------------------------------- stack
    /// Push: the byte goes to the slot that `sp` points at, then `sp` steps
    /// down, modulo 256.
    pub open spec fn push(self, data: u8) -> CpuState {
        CpuState {
            ram: self.ram.update(stack_addr(self.sp) as int, data),
            sp: self.sp.wrapping_sub(1),
            ..self
        }
    }

    /// Pop: `sp` steps up, modulo 256, then the slot it points at is read.
    pub open spec fn pop(self) -> (CpuState, u8) {
        let sp = self.sp.wrapping_add(1);
        (CpuState { sp, ..self }, self.ram[stack_addr(sp) as int])
    }

    /// Push of a word: high byte first, so that the low byte lies below it.
    pub open spec fn push_u16(self, data: u16) -> CpuState {
        self.push(high_byte(data)).push(low_byte(data))
    }

    /// Pop of a word: low byte first.
    pub open spec fn pop_u16(self) -> (CpuState, u16) {
        let (s1, lo) = self.pop();
        let (s2, hi) = s1.pop();
        (s2, word(lo, hi))
    }

    // -------------------------------------------------------------- flags
    /// Whether the flags of `mask` are set.
    pub open spec fn flag(self, mask: u8) -> bool {
        has_flag(self.p, mask)
    }

    /// The state with the flags of `mask` set or cleared.
    pub open spec fn set_flag(self, mask: u8, on: bool) -> CpuState {
        CpuState { p: with_flag(self.p, mask, on), ..self }
    }

    /// ZERO and NEGATIVE as `result` has them: ZERO if it is zero, NEGATIVE
    /// if its bit 7 is set.
    pub open spec fn set_zn(self, result: u8) -> CpuState {
        self.set_flag(ZERO, result == 0).set_flag(NEGATIVE, result & 0x80u8 != 0)
    }

    /// ZERO and NEGATIVE describe the accumulator.
    pub open spec fn zn_reflect_a(self) -> bool {
        &&& self.flag(ZERO) == (self.a == 0)
        &&& self.flag(NEGATIVE) == (self.a & 0x80u8 != 0)
    }

    /// The accumulator set to `value`, with ZERO and NEGATIVE after it.
    pub open spec fn set_a(self, value: u8) -> CpuState {
        CpuState { a: value, ..self }.set_zn(value)
    }

    /// The X register set to `value`, with ZERO and NEGATIVE after it.
    pub open spec fn set_x(self, value: u8) -> CpuState {
        CpuState { x: value, ..self }.set_zn(value)
    }

    /// The Y register set to `value`, with ZERO and NEGATIVE after it.
    pub open spec fn set_y(self, value: u8) -> CpuState {
        CpuState { y: value, ..self }.set_zn(value)
    }

    // --------------------------------------------------------- addressing
    /// The word in the zero page at `ptr`: low byte at `ptr`, high byte at
    /// `ptr + 1` modulo 256.
    pub open spec fn zero_page_word(self, ptr: u8) -> u16 {
        word(self.ram[ptr as int], self.ram[ptr.wrapping_add(1) as int])
    }

    /// The effective address of an operand in `mode`, with `pc` at the
    /// operand bytes. `NoneAddressing` has no operand.
    #[verifier::opaque]
    pub open spec fn operand_address(self, mode: AddressingMode) -> (CpuState, u16)
        recommends
            mode != AddressingMode::NoneAddressing,
    {
        match mode {
            AddressingMode::Immediate => (self, self.pc),
            AddressingMode::ZeroPage => {
                let (s, pos) = self.read(self.pc);
                (s, pos as u16)
            },
            AddressingMode::ZeroPage_X => {
                let (s, pos) = self.read(self.pc);
                (s, pos.wrapping_add(self.x) as u16)
            },
            AddressingMode::ZeroPage_Y => {
                let (s, pos) = self.read(self.pc);
                (s, pos.wrapping_add(self.y) as u16)
            },
            AddressingMode::Absolute => self.read_u16(self.pc),
            AddressingMode::Absolute_X => {
                let (s, base) = self.read_u16(self.pc);
                (s, base.wrapping_add(self.x as u16))
            },
            AddressingMode::Absolute_Y => {
                let (s, base) = self.read_u16(self.pc);
                (s, base.wrapping_add(self.y as u16))
            },
            AddressingMode::Indirect_X => {
                let (s, pos) = self.read(self.pc);
                (s, s.zero_page_word(pos.wrapping_add(self.x)))
            },
            AddressingMode::Indirect_Y => {
                let (s, pos) = self.read(self.pc);
                (s, s.zero_page_word(pos).wrapping_add(self.y as u16))
            },
            AddressingMode::NoneAddressing => (self, 0u16),
        }
    }

    /// Whether indexing takes the operand address of `mode` to another page
    /// than its base. Only the indexed absolute and the indirect-indexed
    /// mode can cross; finding out reads the operand bytes.
    #[verifier::opaque]
    pub open spec fn page_cross(self, mode: AddressingMode) -> (CpuState, bool) {
        match mode {
            AddressingMode::Absolute_X => {
                let (s, base) = self.read_u16(self.pc);
                (s, page(base) != page(base.wrapping_add(self.x as u16)))
            },
            AddressingMode::Absolute_Y => {
                let (s, base) = self.read_u16(self.pc);
                (s, page(base) != page(base.wrapping_add(self.y as u16)))
            },
            AddressingMode::Indirect_Y => {
                let (s, pos) = self.read(self.pc);
                let base = s.zero_page_word(pos);
                (s, page(base) != page(base.wrapping_add(self.y as u16)))
            },
            _ => (self, false),
        }
    }

    /// The operand in `mode`: its address is formed, then it is loaded.
    pub open spec fn operand(self, mode: AddressingMode) -> (CpuState, u8) {
        let (s, addr) = self.operand_address(mode);
        s.read(addr)
    }

    // ------------------------------------------------------- instructions
    /// `LDA`: the operand goes to the accumulator.
    pub open spec fn lda(self, mode: AddressingMode) -> CpuState {
        let (s, value) = self.operand(mode);
        s.set_a(value)
    }

    /// `LDX`: the operand goes to X.
    pub open spec fn ldx(self, mode: AddressingMode) -> CpuState {
        let (s, value) = self.operand(mode);
        s.set_x(value)
    }

    /// `LDY`: the operand goes to Y.
    pub open spec fn ldy(self, mode: AddressingMode) -> CpuState {
        let (s, value) = self.operand(mode);
        s.set_y(value)
    }

    /// A store of `value` to the operand address; no flag changes.
    pub open spec fn store(self, mode: AddressingMode, value: u8) -> CpuState {
        let (s, addr) = self.operand_address(mode);
        s.write(addr, value)
    }

    /// `AND`: the accumulator and the operand, bit by bit.
    pub open spec fn and(self, mode: AddressingMode) -> CpuState {
        let (s, value) = self.operand(mode);
        s.set_a(value & s.a)
    }

    /// `EOR`: the accumulator or else the operand, bit by bit.
    pub open spec fn eor(self, mode: AddressingMode) -> CpuState {
        let (s, value) = self.operand(mode);
        s.set_a(value ^ s.a)
    }

    /// `ORA`: the accumulator or the operand, bit by bit.
    pub open spec fn ora(self, mode: AddressingMode) -> CpuState {
        let (s, value) = self.operand(mode);
        s.set_a(value | s.a)
    }

    /// `A + M + C` in nine bits: the low eight go to the accumulator, the
    /// ninth to CARRY; OVERFLOW is set where the sign of the result differs
    /// from the sign of both addends. Decimal mode is ignored.
    pub open spec fn add_with_carry(self, m: u8) -> CpuState {
        let sum: int = self.a + m + if self.flag(CARRY) {
            1int
        } else {
            0int
        };
        let result: u8 = (sum % 256) as u8;
        self.set_flag(CARRY, sum > 0xFF).set_flag(
            OVERFLOW,
            (m ^ result) & (result ^ self.a) & 0x80u8 != 0,
        ).set_a(result)
    }

    /// `A - M - (1 - C)`: the difference modulo 256 goes to the
    /// accumulator; CARRY is set where no borrow was needed; OVERFLOW is set
    /// where the operands differ in sign and the result has not the sign of
    /// the accumulator.
    pub open spec fn subtract_with_borrow(self, m: u8) -> CpuState {
        let diff: int = self.a - m - if self.flag(CARRY) {
            0int
        } else {
            1int
        };
        let result: u8 = (diff % 256) as u8;
        self.set_flag(CARRY, diff >= 0).set_flag(
            OVERFLOW,
            (self.a ^ m) & (self.a ^ result) & 0x80u8 != 0,
        ).set_a(result)
    }

    /// `ADC`: the operand and CARRY are added to the accumulator.
    pub open spec fn adc(self, mode: AddressingMode) -> CpuState {
        let (s, value) = self.operand(mode);
        s.add_with_carry(value)
    }

    /// `SBC`: the operand and the borrow are subtracted from the
    /// accumulator.
    pub open spec fn sbc(self, mode: AddressingMode) -> CpuState {
        let (s, value) = self.operand(mode);
        s.subtract_with_borrow(value)
    }

    /// A shift or rotate of the accumulator: CARRY takes the bit that left.
    pub open spec fn shift_a(self, shifted: (u8, bool)) -> CpuState {
        self.set_flag(CARRY, shifted.1).set_a(shifted.0)
    }

    /// `ASL A`: the accumulator shifted left.
    pub open spec fn asl_a(self) -> CpuState {
        self.shift_a(shift_left(self.a))
    }

    /// `LSR A`: the accumulator shifted right.
    pub open spec fn lsr_a(self) -> CpuState {
        self.shift_a(shift_right(self.a))
    }

    /// `ROL A`: the accumulator rotated left through CARRY.
    pub open spec fn rol_a(self) -> CpuState {
        self.shift_a(rotate_left(self.a, self.flag(CARRY)))
    }

    /// `ROR A`: the accumulator rotated right through CARRY.
    pub open spec fn ror_a(self) -> CpuState {
        self.shift_a(rotate_right(self.a, self.flag(CARRY)))
    }

    /// A shift or rotate of the byte at `addr`: the result is stored, CARRY
    /// takes the bit that left, ZERO and NEGATIVE follow the result.
    pub open spec fn shift_mem(self, addr: u16, shifted: (u8, bool)) -> CpuState {
        self.set_flag(CARRY, shifted.1).write(addr, shifted.0).set_zn(shifted.0)
    }

    /// `ASL`: the operand shifted left.
    pub open spec fn asl(self, mode: AddressingMode) -> CpuState {
        let (s, addr) = self.operand_address(mode);
        let (s1, value) = s.read(addr);
        s1.shift_mem(addr, shift_left(value))
    }

    /// `LSR`: the operand shifted right.
    pub open spec fn lsr(self, mode: AddressingMode) -> CpuState {
        let (s, addr) = self.operand_address(mode);
        let (s1, value) = s.read(addr);
        s1.shift_mem(addr, shift_right(value))
    }

    /// `ROL`: the operand rotated left through the CARRY that the
    /// instruction found.
    pub open spec fn rol(self, mode: AddressingMode) -> CpuState {
        let (s, addr) = self.operand_address(mode);
        let (s1, value) = s.read(addr);
        s1.shift_mem(addr, rotate_left(value, self.flag(CARRY)))
    }

    /// `ROR`: the operand rotated right through the CARRY that the
    /// instruction found.
    pub open spec fn ror(self, mode: AddressingMode) -> CpuState {
        let (s, addr) = self.operand_address(mode);
        let (s1, value) = s.read(addr);
        s1.shift_mem(addr, rotate_right(value, self.flag(CARRY)))
    }

    /// The byte at the operand address plus one, modulo 256.
    pub open spec fn inc(self, mode: AddressingMode) -> CpuState {
        let (s, addr) = self.operand_address(mode);
        let (s1, value) = s.read(addr);
        s1.write(addr, value.wrapping_add(1)).set_zn(value.wrapping_add(1))
    }

    /// The byte at the operand address minus one, modulo 256.
    pub open spec fn dec(self, mode: AddressingMode) -> CpuState {
        let (s, addr) = self.operand_address(mode);
        let (s1, value) = s.read(addr);
        s1.write(addr, value.wrapping_sub(1)).set_zn(value.wrapping_sub(1))
    }

    /// A compare of `register` with the operand `M`: CARRY where
    /// `M <= register`, ZERO where they are equal, NEGATIVE from bit 7 of
    /// `register - M`.
    pub open spec fn compare(self, mode: AddressingMode, register: u8) -> CpuState {
        let (s, value) = self.operand(mode);
        s.set_flag(CARRY, value <= register).set_zn(register.wrapping_sub(value))
    }

    /// The bit test: ZERO where `A & M` is zero, NEGATIVE and OVERFLOW from
    /// bits 7 and 6 of `M`; the accumulator stays.
    pub open spec fn bit(self, mode: AddressingMode) -> CpuState {
        let (s, value) = self.operand(mode);
        s.set_flag(ZERO, s.a & value == 0).set_flag(NEGATIVE, value & 0x80u8 != 0).set_flag(
            OVERFLOW,
            value & 0x40u8 != 0,
        )
    }

    /// A branch on `condition`: the state, whether the branch was taken, and
    /// whether it then left the page of the instruction that follows it.
    /// Only a taken branch reads its offset.
    pub open spec fn branch(self, condition: bool) -> (CpuState, bool, bool) {
        if !condition {
            (self, false, false)
        } else {
            let (s, offset) = self.read(self.pc);
            let base = self.pc.wrapping_add(1);
            let target = branch_target(base, offset);
            (CpuState { pc: target, ..s }, true, page(base) != page(target))
        }
    }

    /// `JMP`: the program counter is the word in the operand.
    pub open spec fn jmp_absolute(self) -> CpuState {
        let (s, target) = self.read_u16(self.pc);
        CpuState { pc: target, ..s }
    }

    /// The indirect jump. Where the pointer's low byte is `$FF` the high
    /// byte of the target comes from the start of the pointer's own page,
    /// not from the next page.
    pub open spec fn jmp_indirect(self) -> CpuState {
        let (s, ptr) = self.read_u16(self.pc);
        if ptr & 0x00FFu16 == 0x00FF {
            let (s1, lo) = s.read(ptr);
            let (s2, hi) = s1.read(ptr & 0xFF00u16);
            CpuState { pc: word(lo, hi), ..s2 }
        } else {
            let (s1, target) = s.read_u16(ptr);
            CpuState { pc: target, ..s1 }
        }
    }

    /// The call: the address of the last operand byte is pushed, then the
    /// target is loaded.
    pub open spec fn jsr(self) -> CpuState {
        let s = self.push_u16(self.pc.wrapping_add(1));
        let (s1, target) = s.read_u16(self.pc);
        CpuState { pc: target, ..s1 }
    }

    /// The return: the popped word plus one.
    pub open spec fn rts(self) -> CpuState {
        let (s, ret) = self.pop_u16();
        CpuState { pc: ret.wrapping_add(1), ..s }
    }

    /// A status byte as it is taken from the stack: BREAK clear, the unused
    /// bit set.
    pub open spec fn pulled_status(byte: u8) -> u8 {
        with_flag(with_flag(byte, BREAK, false), BREAK2, true)
    }

    /// A status byte as an instruction puts it on the stack: BREAK and the
    /// unused bit set.
    pub open spec fn pushed_status(self) -> u8 {
        with_flag(with_flag(self.p, BREAK, true), BREAK2, true)
    }

    /// The return from an interrupt: the status is pulled, then the
    /// program counter.
    pub open spec fn rti(self) -> CpuState {
        let (s, status) = self.pop();
        let (s1, ret) = CpuState { p: Self::pulled_status(status), ..s }.pop_u16();
        CpuState { pc: ret, ..s1 }
    }

    /// `PHA`: the accumulator is pushed.
    pub open spec fn pha(self) -> CpuState {
        self.push(self.a)
    }

    /// `PLA`: the accumulator is pulled.
    pub open spec fn pla(self) -> CpuState {
        let (s, value) = self.pop();
        s.set_a(value)
    }

    /// `PHP`: the status is pushed, with BREAK and the unused bit set.
    pub open spec fn php(self) -> CpuState {
        self.push(self.pushed_status())
    }

    /// `PLP`: the status is pulled, with BREAK clear and the unused bit set.
    pub open spec fn plp(self) -> CpuState {
        let (s, status) = self.pop();
        CpuState { p: Self::pulled_status(status), ..s }
    }

    // --------------------------------------------------------- interrupts
    /// The interrupt frame: the program counter, high byte first, then the
    /// status with the unused bit set and BREAK as `break_flag` says.
    pub open spec fn push_interrupt_state(self, break_flag: bool) -> CpuState {
        self.push_u16(self.pc).push(with_flag(with_flag(self.p, BREAK, break_flag), BREAK2, true))
    }

    /// Entry into an interrupt: the frame is pushed, INTERRUPT_DISABLE is
    /// set, and the program counter is loaded from `vector`.
    pub open spec fn interrupt(self, vector: u16, break_flag: bool) -> CpuState {
        let s = self.push_interrupt_state(break_flag).set_flag(INTERRUPT_DISABLE, true);
        let (s1, target) = s.read_u16(vector);
        CpuState { pc: target, ..s1 }
    }

    /// The non-maskable interrupt: vector `$FFFA`, BREAK clear in the frame.
    pub open spec fn nmi(self) -> CpuState {
        self.interrupt(0xFFFA, false)
    }

    /// The maskable interrupt: ignored while INTERRUPT_DISABLE is set.
    pub open spec fn irq(self) -> (CpuState, bool) {
        if self.flag(INTERRUPT_DISABLE) {
            (self, false)
        } else {
            (self.interrupt(0xFFFE, false), true)
        }
    }

    /// The software interrupt: vector `$FFFE`, BREAK set in the frame.
    pub open spec fn brk(self) -> CpuState {
        self.interrupt(0xFFFE, true)
    }

    /// Reset: registers and cycle counter cleared, the stack pointer at
    /// `$FD`, INTERRUPT_DISABLE and the unused bit set, and the program
    /// counter loaded from `$FFFC`.
    pub open spec fn reset(self) -> CpuState {
        let s = CpuState { a: 0, x: 0, y: 0, sp: 0xFD, p: 0x24, cycles: 0, ..self };
        let (s1, target) = s.read_u16(0xFFFC);
        CpuState { pc: target, ..s1 }
    }

    // ------------------------------------------------------------ loading
    /// The state after `program` is copied to `$0600` and the reset vector is
    /// pointed at it.
    pub open spec fn load(self, program: Seq<u8>) -> CpuState
        recommends
            program.len() <= 0xFA00,
    {
        CpuState {
            ram: Seq::new(
                0x10000,
                |i: int|
                    if 0x0600 <= i < 0x0600 + program.len() {
                        program[i - 0x0600]
                    } else {
                        self.ram[i]
                    },
            ),
            ..self
        }.write_u16(0xFFFC, 0x0600)
    }

    /// The state after a PRG image of one or two banks is copied to the
    /// upper half of the internal bytes, a single bank twice, and the
    /// cartridge is taken out.
    pub open spec fn load_prg(self, prg: Seq<u8>) -> CpuState
        recommends
            prg.len() == 0x4000 || prg.len() == 0x8000,
    {
        CpuState {
            ram: Seq::new(
                0x10000,
                |i: int|
                    if i < 0x8000 {
                        self.ram[i]
                    } else {
                        prg[(i - 0x8000) % (prg.len() as int)]
                    },
            ),
            cart: None,
            ..self
        }
    }

    /// What `load_cartridge` makes of a cartridge image: the state with the
    /// cartridge in place and the PPU set to its mirroring, or the reason for
    /// which the image is refused. Only mapper 0 is known.
    pub open spec fn load_cartridge(self, image: CartridgeImage) -> Result<
        CpuState,
        CpuLoadError,
    > {
        if image.mapper != 0 {
            Err(CpuLoadError::UnsupportedMapper(image.mapper))
        } else {
            match nrom_new(image.prg, image.chr, image.has_chr_ram) {
                Ok(cart) => Ok(
                    CpuState {
                        ppu: PpuState { mirroring: image.mirroring, ..self.ppu },
                        cart: Some(cart),
                        ..self
                    },
                ),
                Err(MapperError::InvalidPrgSize(size)) => Err(CpuLoadError::InvalidPrgSize(size)),
            }
        }
    }

    // ------------------------------------------------------------ tracing
    /// The snapshot an observer takes: the registers, and the opcode byte
    /// at `pc` with its mnemonic, or `???` where it is no instruction.
    /// Taking it loads that byte.
    pub open spec fn snapshot(self) -> (CpuState, TraceState) {
        let (s, opcode) = self.read(self.pc);
        (
            s,
            TraceState {
                pc: self.pc,
                opcode,
                mnemonic: match opcode_table(opcode) {
                    Some(row) => row.mnemonic,
                    None => "???",
                },
                register_a: self.a,
                register_x: self.x,
                register_y: self.y,
                status: self.p,
                stack_pointer: self.sp,
            },
        )
    }

    // ---------------------------------------------------------- execution
    /// The flag test that decides the branch instruction `code`.
    pub open spec fn branch_condition(self, code: u8) -> bool {
        match code {
            0x10 => !self.flag(NEGATIVE),
            0x30 => self.flag(NEGATIVE),
            0x50 => !self.flag(OVERFLOW),
            0x70 => self.flag(OVERFLOW),
            0x90 => !self.flag(CARRY),
            0xB0 => self.flag(CARRY),
            0xD0 => !self.flag(ZERO),
            _ => self.flag(ZERO),
        }
    }

    /// A branch instruction: one cycle more if it is taken, and one more
    /// again if it then crosses a page. A taken branch has set the program
    /// counter.
    pub open spec fn branch_on(self, condition: bool) -> (CpuState, nat, bool) {
        let (s, taken, crossed) = self.branch(condition);
        (
            s,
            if !taken {
                0nat
            } else if crossed {
                2nat
            } else {
                1nat
            },
            taken,
        )
    }

    /// What the instruction `code` does once its opcode byte is fetched and
    /// `pc` is at its operand: the state it leaves, the cycles it costs
    /// beyond its base cost, and whether it set the program counter itself.
    #[verifier::opaque]
    pub open spec fn execute(self, code: u8, mode: AddressingMode) -> (CpuState, nat, bool) {
        match code {
            0xA9 | 0xA5 | 0xB5 | 0xAD | 0xBD | 0xB9 | 0xA1 | 0xB1 => (self.lda(mode), 0, false),
            0xA2 | 0xA6 | 0xB6 | 0xAE | 0xBE => (self.ldx(mode), 0, false),
            0xA0 | 0xA4 | 0xB4 | 0xAC | 0xBC => (self.ldy(mode), 0, false),
            0x85 | 0x95 | 0x8D | 0x9D | 0x99 | 0x81 | 0x91 => (self.store(mode, self.a), 0, false),
            0x86 | 0x96 | 0x8E => (self.store(mode, self.x), 0, false),
            0x84 | 0x94 | 0x8C => (self.store(mode, self.y), 0, false),
            0xAA => (self.set_x(self.a), 0, false),
            0xA8 => (self.set_y(self.a), 0, false),
            0xBA => (self.set_x(self.sp), 0, false),
            0x8A => (self.set_a(self.x), 0, false),
            0x9A => (CpuState { sp: self.x, ..self }, 0, false),
            0x98 => (self.set_a(self.y), 0, false),
            0x69 | 0x65 | 0x75 | 0x6D | 0x7D | 0x79 | 0x61 | 0x71 => (self.adc(mode), 0, false),
            0xE9 | 0xE5 | 0xF5 | 0xED | 0xFD | 0xF9 | 0xE1 | 0xF1 => (self.sbc(mode), 0, false),
            0x29 | 0x25 | 0x35 | 0x2D | 0x3D | 0x39 | 0x21 | 0x31 => (self.and(mode), 0, false),
            0x49 | 0x45 | 0x55 | 0x4D | 0x5D | 0x59 | 0x41 | 0x51 => (self.eor(mode), 0, false),
            0x09 | 0x05 | 0x15 | 0x0D | 0x1D | 0x19 | 0x01 | 0x11 => (self.ora(mode), 0, false),
            0x0A => (self.asl_a(), 0, false),
            0x06 | 0x16 | 0x0E | 0x1E => (self.asl(mode), 0, false),
            0x4A => (self.lsr_a(), 0, false),
            0x46 | 0x56 | 0x4E | 0x5E => (self.lsr(mode), 0, false),
            0x2A => (self.rol_a(), 0, false),
            0x26 | 0x36 | 0x2E | 0x3E => (self.rol(mode), 0, false),
            0x6A => (self.ror_a(), 0, false),
            0x66 | 0x76 | 0x6E | 0x7E => (self.ror(mode), 0, false),
            0xE6 | 0xF6 | 0xEE | 0xFE => (self.inc(mode), 0, false),
            0xC6 | 0xD6 | 0xCE | 0xDE => (self.dec(mode), 0, false),
            0xE8 => (self.set_x(self.x.wrapping_add(1)), 0, false),
            0xC8 => (self.set_y(self.y.wrapping_add(1)), 0, false),
            0xCA => (self.set_x(self.x.wrapping_sub(1)), 0, false),
            0x88 => (self.set_y(self.y.wrapping_sub(1)), 0, false),
            0xC9 | 0xC5 | 0xD5 | 0xCD | 0xDD | 0xD9 | 0xC1 | 0xD1 => (
                self.compare(mode, self.a),
                0,
                false,
            ),
            0xE0 | 0xE4 | 0xEC => (self.compare(mode, self.x), 0, false),
            0xC0 | 0xC4 | 0xCC => (self.compare(mode, self.y), 0, false),
            0x24 | 0x2C => (self.bit(mode), 0, false),
            0x10 | 0x30 | 0x50 | 0x70 | 0x90 | 0xB0 | 0xD0 | 0xF0 => self.branch_on(
                self.branch_condition(code),
            ),
            0x4C => (self.jmp_absolute(), 0, true),
            0x6C => (self.jmp_indirect(), 0, true),
            0x20 => (self.jsr(), 0, true),
            0x60 => (self.rts(), 0, true),
            0x40 => (self.rti(), 0, true),
            0x48 => (self.pha(), 0, false),
            0x68 => (self.pla(), 0, false),
            0x08 => (self.php(), 0, false),
            0x28 => (self.plp(), 0, false),
            0x18 => (self.set_flag(CARRY, false), 0, false),
            0x38 => (self.set_flag(CARRY, true), 0, false),
            0x58 => (self.set_flag(INTERRUPT_DISABLE, false), 0, false),
            0x78 => (self.set_flag(INTERRUPT_DISABLE, true), 0, false),
            0xB8 => (self.set_flag(OVERFLOW, false), 0, false),
            0xD8 => (self.set_flag(DECIMAL_MODE, false), 0, false),
            0xF8 => (self.set_flag(DECIMAL_MODE, true), 0, false),
            _ => (self, 0, false),
        }
    }

    /// One instruction: the opcode at `pc` is fetched and looked up, the
    /// page-cross penalty is found out for the instructions that have one,
    /// the instruction is carried out, `pc` moves past the operand unless
    /// the instruction set it, and the cycles are charged.
    ///
    /// `BRK` halts: it is charged and `pc` moves past it. A byte that is no
    /// instruction is reported with `pc` still at it and nothing charged.
    pub open spec fn step(self) -> (CpuState, Result<StepOutcome, CpuError>) {
        let (s, code) = self.read(self.pc);
        match opcode_table(code) {
            None => (s, Err(CpuError::UnsupportedOpcode { opcode: code, pc: self.pc })),
            Some(row) => {
                let fetched = CpuState { pc: self.pc.wrapping_add(1), ..s };
                if code == 0x00 {
                    (
                        CpuState { cycles: self.cycles + row.cycles as nat, ..fetched },
                        Ok(StepOutcome::Halted),
                    )
                } else {
                    let (s1, crossed) = if has_page_cross_penalty(code) {
                        fetched.page_cross(row.mode)
                    } else {
                        (fetched, false)
                    };
                    let (s2, extra, jumped) = s1.execute(code, row.mode);
                    (
                        CpuState {
                            pc: if jumped {
                                s2.pc
                            } else {
                                s2.pc.wrapping_add((row.len - 1) as u16)
                            },
                            cycles: self.cycles + row.cycles as nat + extra + if crossed {
                                1nat
                            } else {
                                0nat
                            },
                            ..s2
                        },
                        Ok(StepOutcome::Continue),
                    )
                }
            },
        }
    }

    /// The state in which the observer of a traced run finds the machine
    /// after an instruction: taking the snapshot loads the next opcode byte.
    pub open spec fn observed(self, traced: bool) -> CpuState {
        if traced {
            self.snapshot().0
        } else {
            self
        }
    }

    /// A run: instructions are carried out one after another until `BRK`
    /// halts the machine, a byte is no instruction, or the cycle counter
    /// cannot hold another instruction.
    pub open spec fn run(self, traced: bool) -> (CpuState, Result<(), CpuError>)
        decreases 0xFFFF_FFFF_FFFF_FFFF - self.cycles,
    {
        if self.cycles > CYCLE_LIMIT {
            (self, Err(CpuError::CycleLimit))
        } else {
            let (s, r) = self.step();
            match r {
                Ok(StepOutcome::Continue) => {
                    proof {
                        lemma_step_costs(self);
                    }
                    s.observed(traced).run(traced)
                },
                Ok(StepOutcome::Halted) => (s, Ok(())),
                Err(e) => (s, Err(e)),
            }
        }
    }
}

/// A load leaves everything but the PPU as it was.
pub proof fn lemma_read_frame(s: CpuState, addr: u16)
    ensures
        s.same_but_ppu(s.read(addr).0),
{
    reveal(CpuState::read);
}

/// A load of a word leaves everything but the PPU as it was.
pub proof fn lemma_read_u16_frame(s: CpuState, pos: u16)
    ensures
        s.same_but_ppu(s.read_u16(pos).0),
{
    lemma_read_frame(s, pos);
    lemma_read_frame(s.read(pos).0, pos.wrapping_add(1));
}

/// No instruction costs more than two cycles beyond its base cost and its
/// page-cross penalty.
#[verifier::rlimit(50)]
pub proof fn lemma_execute_extra(s: CpuState, code: u8, mode: AddressingMode)
    ensures
        s.execute(code, mode).1 <= 2,
{
    reveal(CpuState::execute);
}

/// An instruction that lets the run go on costs between two and nine cycles.
#[verifier::rlimit(50)]
pub proof fn lemma_step_costs(s: CpuState)
    ensures
        s.step().1 == Ok::<StepOutcome, CpuError>(StepOutcome::Continue) ==> s.cycles + 2
            <= s.step().0.cycles <= s.cycles + 9,
        s.step().1 == Ok::<StepOutcome, CpuError>(StepOutcome::Halted) ==> s.step().0.cycles
            == s.cycles + 7,
        s.step().1 is Err ==> s.step().0.cycles == s.cycles,
        s.step().0.observed(true).cycles == s.step().0.cycles,
{
    let code = s.read(s.pc).1;
    crate::opcodes::lemma_table_rows(code);
    lemma_read_frame(s, s.pc);
    lemma_read_frame(s.step().0, s.step().0.pc);
    if opcode_table(code) is Some {
        let row = opcode_table(code)->0;
        let fetched = CpuState { pc: s.pc.wrapping_add(1), ..s.read(s.pc).0 };
        let s1 = if has_page_cross_penalty(code) {
            fetched.page_cross(row.mode).0
        } else {
            fetched
        };
        lemma_execute_extra(s1, code, row.mode);
    }
}

} // verus!
