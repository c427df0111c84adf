//! Laws of the CPU and its bus, proved over [`CpuState`].

use crate::cpu::CpuError;
use crate::cpu::StepOutcome;
use crate::cpu_state::branch_target;
use crate::cpu_state::high_byte;
use crate::cpu_state::has_page_cross_penalty;
use crate::cpu_state::lemma_read_frame;
use crate::cpu_state::lemma_read_u16_frame;
use crate::cpu_state::low_byte;
use crate::cpu_state::page;
use crate::cpu_state::stack_addr;
use crate::cpu_state::word;
use crate::cpu_state::CpuState;
use crate::flags::lemma_with_flag_decides;
use crate::flags::lemma_with_flag_keeps;
use crate::flags::with_flag;
use crate::flags::BREAK2;
use crate::flags::CARRY;
use crate::flags::INTERRUPT_DISABLE;
use crate::flags::NEGATIVE;
use crate::flags::OVERFLOW;
use crate::flags::ZERO;
use crate::mapper::NromState;
use crate::opcodes::opcode_table;
use crate::opcodes::AddressingMode;
use vstd::prelude::*;

verus! {

// ------------------------------------------------------------------ words
/// A word is put together again from its two bytes.
pub proof fn lemma_word_of_bytes(w: u16)
    ensures
        word(low_byte(w), high_byte(w)) == w,
{
    assert(((((w >> 8u16) as u8) as u16) << 8u16) | (((w & 0xffu16) as u8) as u16) == w)
        by (bit_vector);
}

/// The bytes of a word that is put together are the bytes it was put
/// together from, and its value is `256 * hi + lo`.
pub proof fn lemma_bytes_of_word(lo: u8, hi: u8)
    ensures
        low_byte(word(lo, hi)) == lo,
        high_byte(word(lo, hi)) == hi,
        word(lo, hi) == 256 * hi + lo,
{
    assert(((((hi as u16) << 8u16) | (lo as u16)) & 0xffu16) as u8 == lo) by (bit_vector);
    assert(((((hi as u16) << 8u16) | (lo as u16)) >> 8u16) as u8 == hi) by (bit_vector);
    assert((((hi as u16) << 8u16) | (lo as u16)) == 256 * (hi as u16) + (lo as u16))
        by (bit_vector);
}

// ------------------------------------------------------------------ reset
/// Outside the PPU's register window a load changes nothing.
pub proof fn lemma_read_is_pure_outside_ppu(s: CpuState, addr: u16)
    requires
        !(0x2000 <= addr < 0x4000),
    ensures
        s.read(addr).0 == s,
{
    reveal(CpuState::read);
}

/// After reset the registers are zero, the stack pointer is `$FD`, the
/// status is `0b0010_0100`, which is INTERRUPT_DISABLE and the unused bit,
/// no cycle is counted, and the program counter is the word at `$FFFC`.
/// Nothing else changes.
pub proof fn lemma_reset(s: CpuState)
    ensures
        s.reset().a == 0,
        s.reset().x == 0,
        s.reset().y == 0,
        s.reset().sp == 0xFD,
        s.reset().p == 0b0010_0100,
        s.reset().flag(INTERRUPT_DISABLE),
        s.reset().flag(BREAK2),
        s.reset().cycles == 0,
        s.reset().pc == word(s.read(0xFFFC).1, s.read(0xFFFD).1),
        s.reset() == (CpuState {
            a: 0,
            x: 0,
            y: 0,
            sp: 0xFD,
            p: 0x24,
            cycles: 0,
            pc: s.reset().pc,
            ..s
        }),
{
    reveal(CpuState::read);
    assert(0x24u8 & 0x04u8 == 0x04u8 && 0x24u8 & 0x20u8 == 0x20u8) by (bit_vector);
}

// ------------------------------------------------------------------- wrap
/// A word access at `$FFFF` takes its low byte at `$FFFF` and its high byte
/// at `$0000`.
pub proof fn lemma_word_access_wraps(s: CpuState, data: u16)
    ensures
        s.read_u16(0xFFFF).1 == word(s.read(0xFFFF).1, s.read(0xFFFF).0.read(0x0000).1),
        s.read_u16(0xFFFF).0 == s.read(0xFFFF).0.read(0x0000).0,
        s.write_u16(0xFFFF, data) == s.write(0xFFFF, low_byte(data)).write(
            0x0000,
            high_byte(data),
        ),
{
}

/// Without a cartridge, a word stored at `$FFFF` is loaded from there again,
/// and its bytes lie at `$FFFF` and `$0000` of the internal bytes.
pub proof fn lemma_word_round_trip_at_top(s: CpuState, data: u16)
    requires
        s.wf(),
        s.cart is None,
    ensures
        s.write_u16(0xFFFF, data).read_u16(0xFFFF).1 == data,
        s.write_u16(0xFFFF, data).ram[0xFFFF] == low_byte(data),
        s.write_u16(0xFFFF, data).ram[0x0000] == high_byte(data),
{
    reveal(CpuState::read);
    reveal(CpuState::write);
    lemma_word_of_bytes(data);
}

/// Arithmetic on registers is arithmetic modulo 256, and arithmetic on
/// addresses is arithmetic modulo 65536.
pub proof fn lemma_arithmetic_wraps(a: u8, b: u8, base: u16, index: u16)
    ensures
        a.wrapping_add(b) == (a + b) % 256,
        a.wrapping_sub(b) == (a - b) % 256,
        base.wrapping_add(index) == (base + index) % 65536,
        base.wrapping_sub(index) == (base - index) % 65536,
{
}

/// A taken branch lands at the base address plus the offset read as a
/// signed byte, modulo 65536.
pub proof fn lemma_branch_target(base: u16, offset: u8)
    ensures
        offset < 0x80 ==> branch_target(base, offset) == (base + offset) % 65536,
        offset >= 0x80 ==> branch_target(base, offset) == (base + offset - 256) % 65536,
{
}

/// The increments and decrements of the index registers wrap: `INX` and
/// `INY` take `$FF` to `$00`, `DEX` and `DEY` take `$00` to `$FF`.
#[verifier::rlimit(50)]
pub proof fn lemma_index_instructions_wrap(s: CpuState)
    ensures
        s.execute(0xE8, AddressingMode::NoneAddressing).0.x == (s.x + 1) % 256,
        s.execute(0xC8, AddressingMode::NoneAddressing).0.y == (s.y + 1) % 256,
        s.execute(0xCA, AddressingMode::NoneAddressing).0.x == (s.x - 1) % 256,
        s.execute(0x88, AddressingMode::NoneAddressing).0.y == (s.y - 1) % 256,
{
    reveal(CpuState::execute);
    lemma_flags_follow_index(s, s.x.wrapping_add(1));
    lemma_flags_follow_index(s, s.x.wrapping_sub(1));
    lemma_flags_follow_index(s, s.y.wrapping_add(1));
    lemma_flags_follow_index(s, s.y.wrapping_sub(1));
}

/// Indexed operand addresses wrap: inside the zero page for the zero-page
/// modes, inside the address space for the absolute modes.
pub proof fn lemma_indexed_addresses_wrap(s: CpuState)
    ensures
        s.operand_address(AddressingMode::Absolute_X).1 == (s.read_u16(s.pc).1 + s.x) % 65536,
        s.operand_address(AddressingMode::Absolute_Y).1 == (s.read_u16(s.pc).1 + s.y) % 65536,
        s.operand_address(AddressingMode::ZeroPage_X).1 == (s.read(s.pc).1 + s.x) % 256,
        s.operand_address(AddressingMode::ZeroPage_Y).1 == (s.read(s.pc).1 + s.y) % 256,
{
    reveal(CpuState::operand_address);
}

// ------------------------------------------------------------------ stack
/// A byte that is pushed is the byte that is popped, from any stack
/// pointer, and the stack pointer is then where it was. The state differs
/// from the one before the push in the stack slot alone.
pub proof fn lemma_stack_round_trip(s: CpuState, data: u8)
    requires
        s.wf(),
    ensures
        s.push(data).pop().1 == data,
        s.push(data).pop().0.sp == s.sp,
        s.push(data).pop().0 == (CpuState {
            ram: s.ram.update(stack_addr(s.sp) as int, data),
            ..s
        }),
{
}

/// A word that is pushed is the word that is popped, from any stack
/// pointer, and the stack pointer is then where it was.
pub proof fn lemma_stack_round_trip_u16(s: CpuState, data: u16)
    requires
        s.wf(),
    ensures
        s.push_u16(data).pop_u16().1 == data,
        s.push_u16(data).pop_u16().0.sp == s.sp,
{
    lemma_word_of_bytes(data);
}

// ------------------------------------------------------------------ flags
/// Once ZERO and NEGATIVE are set from a byte, ZERO says that the byte is
/// zero and NEGATIVE that its bit 7 is set; the other flags are as before.
pub proof fn lemma_set_zn(s: CpuState, result: u8)
    ensures
        s.set_zn(result).flag(ZERO) == (result == 0),
        s.set_zn(result).flag(NEGATIVE) == (result & 0x80u8 != 0),
        s.set_zn(result).flag(CARRY) == s.flag(CARRY),
        s.set_zn(result).flag(OVERFLOW) == s.flag(OVERFLOW),
        s.set_zn(result).flag(INTERRUPT_DISABLE) == s.flag(INTERRUPT_DISABLE),
        s.set_zn(result) == (CpuState { p: s.set_zn(result).p, ..s }),
{
    let p1 = with_flag(s.p, ZERO, result == 0);
    lemma_with_flag_decides(s.p, ZERO, result == 0);
    lemma_with_flag_decides(p1, NEGATIVE, result & 0x80u8 != 0);
    assert(0x02u8 & 0x80u8 == 0 && 0x80u8 & 0x02u8 == 0 && 0x02u8 & 0x01u8 == 0 && 0x80u8 & 0x01u8
        == 0 && 0x02u8 & 0x40u8 == 0 && 0x80u8 & 0x40u8 == 0 && 0x02u8 & 0x04u8 == 0 && 0x80u8
        & 0x04u8 == 0) by (bit_vector);
    lemma_with_flag_keeps(p1, NEGATIVE, ZERO, result & 0x80u8 != 0);
    lemma_with_flag_keeps(s.p, ZERO, CARRY, result == 0);
    lemma_with_flag_keeps(p1, NEGATIVE, CARRY, result & 0x80u8 != 0);
    lemma_with_flag_keeps(s.p, ZERO, OVERFLOW, result == 0);
    lemma_with_flag_keeps(p1, NEGATIVE, OVERFLOW, result & 0x80u8 != 0);
    lemma_with_flag_keeps(s.p, ZERO, INTERRUPT_DISABLE, result == 0);
    lemma_with_flag_keeps(p1, NEGATIVE, INTERRUPT_DISABLE, result & 0x80u8 != 0);
}

/// After every operation that writes the accumulator, ZERO holds exactly if
/// the accumulator is zero and NEGATIVE exactly if its bit 7 is set: after
/// the loads, the logic and arithmetic instructions, the shifts and rotates
/// of the accumulator, the pull and the transfers into it.
#[verifier::rlimit(50)]
pub proof fn lemma_flags_follow_accumulator(s: CpuState, mode: AddressingMode, value: u8)
    ensures
        s.set_a(value).zn_reflect_a(),
        s.lda(mode).zn_reflect_a(),
        s.and(mode).zn_reflect_a(),
        s.eor(mode).zn_reflect_a(),
        s.ora(mode).zn_reflect_a(),
        s.adc(mode).zn_reflect_a(),
        s.sbc(mode).zn_reflect_a(),
        s.asl_a().zn_reflect_a(),
        s.lsr_a().zn_reflect_a(),
        s.rol_a().zn_reflect_a(),
        s.ror_a().zn_reflect_a(),
        s.pla().zn_reflect_a(),
        s.execute(0x8A, AddressingMode::NoneAddressing).0.zn_reflect_a(),
        s.execute(0x98, AddressingMode::NoneAddressing).0.zn_reflect_a(),
{
    reveal(CpuState::execute);
    assert forall|t: CpuState, v: u8| #[trigger] t.set_a(v).zn_reflect_a() by {
        lemma_set_zn(CpuState { a: v, ..t }, v);
    }
}

/// After every operation that writes an index register with flags, ZERO and
/// NEGATIVE describe the value written.
pub proof fn lemma_flags_follow_index(s: CpuState, value: u8)
    ensures
        s.set_x(value).x == value,
        s.set_x(value).flag(ZERO) == (value == 0),
        s.set_x(value).flag(NEGATIVE) == (value & 0x80u8 != 0),
        s.set_y(value).y == value,
        s.set_y(value).flag(ZERO) == (value == 0),
        s.set_y(value).flag(NEGATIVE) == (value & 0x80u8 != 0),
{
    lemma_set_zn(CpuState { x: value, ..s }, value);
    lemma_set_zn(CpuState { y: value, ..s }, value);
}

// ------------------------------------------------------------- arithmetic
/// Subtraction with borrow is addition with carry of the one's complement:
/// the accumulator and every flag, CARRY and OVERFLOW among them, come out
/// the same, whatever the carry was before.
pub proof fn lemma_sbc_is_adc_of_complement(s: CpuState, m: u8)
    ensures
        s.subtract_with_borrow(m) == s.add_with_carry(!m),
{
    let a = s.a;
    let c: int = if s.flag(CARRY) {
        1
    } else {
        0
    };
    assert(!m == 255 - m) by (bit_vector);
    let sum: int = a + !m + c;
    let diff: int = a - m - (1 - c);
    assert(sum == diff + 256);
    let r: u8 = (sum % 256) as u8;
    assert(r == (diff % 256) as u8);
    assert(((!m) ^ r) & (r ^ a) & 0x80u8 == (a ^ m) & (a ^ r) & 0x80u8) by (bit_vector);
}

/// What the addition leaves: the sum modulo 256 in the accumulator and
/// its ninth bit in CARRY; OVERFLOW says that the sum of the operands, read
/// as signed bytes, and the carry does not fit in a signed byte.
pub proof fn lemma_adc_result(s: CpuState, m: u8)
    ensures
        s.add_with_carry(m).a == (s.a + m + if s.flag(CARRY) {
            1int
        } else {
            0int
        }) % 256,
        s.add_with_carry(m).flag(CARRY) == (s.a + m + if s.flag(CARRY) {
            1int
        } else {
            0int
        } > 255),
        s.add_with_carry(m).flag(OVERFLOW) == ({
            let signed_a: int = if s.a < 128 {
                s.a as int
            } else {
                s.a - 256
            };
            let signed_m: int = if m < 128 {
                m as int
            } else {
                m - 256
            };
            let carry: int = if s.flag(CARRY) {
                1
            } else {
                0
            };
            signed_a + signed_m + carry < -128 || signed_a + signed_m + carry > 127
        }),
{
    let c: int = if s.flag(CARRY) {
        1
    } else {
        0
    };
    let sum: int = s.a + m + c;
    let r: u8 = (sum % 256) as u8;
    let a = s.a;
    let s1 = s.set_flag(CARRY, sum > 0xFF);
    let v = (m ^ r) & (r ^ a) & 0x80u8 != 0;
    let s2 = s1.set_flag(OVERFLOW, v);
    lemma_with_flag_decides(s.p, CARRY, sum > 0xFF);
    lemma_with_flag_decides(s1.p, OVERFLOW, v);
    assert(0x40u8 & 0x01u8 == 0) by (bit_vector);
    lemma_with_flag_keeps(s1.p, OVERFLOW, CARRY, v);
    lemma_set_zn(CpuState { a: r, ..s2 }, r);
    assert(((m ^ r) & (r ^ a) & 0x80u8 != 0) == ((a >= 128) == (m >= 128) && (r >= 128) != (a
        >= 128))) by (bit_vector);
}

// -------------------------------------------------------- program counter
/// A store changes the internal bytes, the APU or the PPU, and nothing
/// else; a store to a register of the APU or the PPU leaves the internal
/// bytes as they were.
pub proof fn lemma_write_frame(s: CpuState, addr: u16, data: u8)
    ensures
        s.write(addr, data) == (CpuState {
            ram: s.write(addr, data).ram,
            apu: s.write(addr, data).apu,
            ppu: s.write(addr, data).ppu,
            ..s
        }),
        0x2000 <= addr <= 0x4017 ==> s.write(addr, data).ram == s.ram,
{
    reveal(CpuState::write);
}

/// Forming an operand address, finding out whether it crosses a page, and
/// loading the operand leave everything but the PPU as it was.
pub proof fn lemma_operand_frame(s: CpuState, mode: AddressingMode)
    ensures
        s.same_but_ppu(s.operand_address(mode).0),
        s.same_but_ppu(s.page_cross(mode).0),
        s.same_but_ppu(s.operand(mode).0),
{
    reveal(CpuState::operand_address);
    reveal(CpuState::page_cross);
    lemma_read_frame(s, s.pc);
    lemma_read_u16_frame(s, s.pc);
    lemma_read_frame(s.operand_address(mode).0, s.operand_address(mode).1);
}

/// Whether `code` is one of the instructions that set the program counter
/// themselves: the branches, the jumps, the call and the two returns.
pub open spec fn sets_program_counter(code: u8) -> bool {
    is_branch(code) || code == 0x4C || code == 0x6C || code == 0x20 || code == 0x60 || code
        == 0x40
}

/// An instruction that is no branch, jump, call or return leaves the
/// program counter to the interpreter.
#[verifier::rlimit(50)]
pub proof fn lemma_execute_keeps_program_counter(s: CpuState, code: u8, mode: AddressingMode)
    requires
        !sets_program_counter(code),
    ensures
        s.execute(code, mode).0.pc == s.pc,
        !s.execute(code, mode).2,
{
    reveal(CpuState::execute);
    lemma_operand_frame(s, mode);
    let (s1, addr) = s.operand_address(mode);
    lemma_read_frame(s1, addr);
    assert forall|t: CpuState, a: u16, d: u8| (#[trigger] t.write(a, d)).pc == t.pc by {
        lemma_write_frame(t, a, d);
    }
}

/// After every instruction but a branch, jump, call or return, the program
/// counter has advanced by the length of the instruction, modulo 65536.
/// This holds of `BRK` too, which halts the run.
pub proof fn lemma_program_counter_advances(s: CpuState)
    requires
        opcode_table(s.read(s.pc).1) is Some,
        !sets_program_counter(s.read(s.pc).1),
    ensures
        s.step().1 is Ok,
        s.step().0.pc == (s.pc + opcode_table(s.read(s.pc).1)->0.len) % 65536,
{
    let (s0, code) = s.read(s.pc);
    let row = opcode_table(code)->0;
    crate::opcodes::lemma_table_rows(code);
    lemma_read_frame(s, s.pc);
    let fetched = CpuState { pc: s.pc.wrapping_add(1), ..s0 };
    lemma_operand_frame(fetched, row.mode);
    let s1 = if has_page_cross_penalty(code) {
        fetched.page_cross(row.mode).0
    } else {
        fetched
    };
    lemma_execute_keeps_program_counter(s1, code, row.mode);
}

/// The instructions with a page-cross penalty are those of the table whose
/// mode is indexed absolute or indirect-indexed and that only load their
/// operand.
pub proof fn lemma_penalty_modes(code: u8)
    ensures
        has_page_cross_penalty(code) ==> opcode_table(code) is Some && (opcode_table(code)->0.mode
            == AddressingMode::Absolute_X || opcode_table(code)->0.mode
            == AddressingMode::Absolute_Y || opcode_table(code)->0.mode
            == AddressingMode::Indirect_Y),
{
}

// -------------------------------------------------------- well-formedness
/// Loads and stores keep the memories at their sizes.
pub proof fn lemma_bus_keeps_wf(s: CpuState, addr: u16, data: u8)
    requires
        s.wf(),
    ensures
        s.read(addr).0.wf(),
        s.write(addr, data).wf(),
{
    reveal(CpuState::read);
    reveal(CpuState::write);
}

/// Forming an operand address and loading an operand keep the memories at
/// their sizes.
pub proof fn lemma_operand_keeps_wf(s: CpuState, mode: AddressingMode)
    requires
        s.wf(),
    ensures
        s.operand_address(mode).0.wf(),
        s.page_cross(mode).0.wf(),
        s.operand(mode).0.wf(),
{
    reveal(CpuState::operand_address);
    reveal(CpuState::page_cross);
    lemma_bus_keeps_wf(s, s.pc, 0);
    lemma_bus_keeps_wf(s.read(s.pc).0, s.pc.wrapping_add(1), 0);
    lemma_bus_keeps_wf(s.operand_address(mode).0, s.operand_address(mode).1, 0);
}

/// No instruction changes the size of a memory.
#[verifier::rlimit(50)]
pub proof fn lemma_execute_keeps_wf(s: CpuState, code: u8, mode: AddressingMode)
    requires
        s.wf(),
    ensures
        s.execute(code, mode).0.wf(),
{
    reveal(CpuState::execute);
    lemma_operand_keeps_wf(s, mode);
    assert forall|t: CpuState, a: u16| t.wf() implies (#[trigger] t.read(a)).0.wf() by {
        lemma_bus_keeps_wf(t, a, 0);
    }
    assert forall|t: CpuState, a: u16, d: u8| t.wf() implies (#[trigger] t.write(a, d)).wf() by {
        lemma_bus_keeps_wf(t, a, d);
    }
}

/// The memories keep their sizes through every instruction, and so through
/// every run.
pub proof fn lemma_step_keeps_wf(s: CpuState)
    requires
        s.wf(),
    ensures
        s.step().0.wf(),
{
    let (s0, code) = s.read(s.pc);
    lemma_bus_keeps_wf(s, s.pc, 0);
    if opcode_table(code) is Some {
        let row = opcode_table(code)->0;
        let fetched = CpuState { pc: s.pc.wrapping_add(1), ..s0 };
        lemma_operand_keeps_wf(fetched, row.mode);
        let s1 = if has_page_cross_penalty(code) {
            fetched.page_cross(row.mode).0
        } else {
            fetched
        };
        lemma_execute_keeps_wf(s1, code, row.mode);
    }
}

// --------------------------------------------------------------- branches
/// Whether `code` is one of the eight branch instructions.
pub open spec fn is_branch(code: u8) -> bool {
    code == 0x10 || code == 0x30 || code == 0x50 || code == 0x70 || code == 0x90 || code == 0xB0
        || code == 0xD0 || code == 0xF0
}

/// A branch that is not taken costs its two base cycles and goes on behind
/// its offset byte. A branch that is taken costs one cycle more if it stays
/// on the page of the instruction behind it, and two more if it leaves that
/// page.
#[verifier::rlimit(50)]
pub proof fn lemma_branch_cycles(s: CpuState)
    requires
        is_branch(s.read(s.pc).1),
    ensures
        s.step().1 == Ok::<StepOutcome, CpuError>(StepOutcome::Continue),
        ({
            let (s0, code) = s.read(s.pc);
            let operand = s.pc.wrapping_add(1);
            let behind = operand.wrapping_add(1);
            let fetched = CpuState { pc: operand, ..s0 };
            let target = branch_target(behind, fetched.read(operand).1);
            if !fetched.branch_condition(code) {
                &&& s.step().0.cycles == s.cycles + 2
                &&& s.step().0.pc == behind
            } else if page(behind) == page(target) {
                &&& s.step().0.cycles == s.cycles + 3
                &&& s.step().0.pc == target
            } else {
                &&& s.step().0.cycles == s.cycles + 4
                &&& s.step().0.pc == target
            }
        }),
{
    reveal(CpuState::execute);
    let (s0, code) = s.read(s.pc);
    let operand = s.pc.wrapping_add(1);
    let fetched = CpuState { pc: operand, ..s0 };
    lemma_read_frame(s, s.pc);
    lemma_read_frame(fetched, operand);
}

// -------------------------------------------------------------- cartridge
/// A cartridge with a single PRG bank shows it twice: the byte at
/// `$8000 + k` is the byte at `$C000 + k`, which is byte `k` of the bank.
pub proof fn lemma_nrom_mirror(cart: NromState, k: u16)
    requires
        cart.prg.len() == 0x4000,
        k < 0x4000,
    ensures
        cart.cpu_read((0x8000 + k) as u16) == Some(cart.prg[k as int]),
        cart.cpu_read((0xC000 + k) as u16) == Some(cart.prg[k as int]),
{
}

/// With a cartridge of a single PRG bank in place, the CPU loads the same
/// byte from `$8000 + k` and from `$C000 + k`, and neither load changes
/// anything.
pub proof fn lemma_cartridge_mirror(s: CpuState, k: u16)
    requires
        s.cart matches Some(cart) && cart.prg.len() == 0x4000,
        k < 0x4000,
    ensures
        s.read((0x8000 + k) as u16) == s.read((0xC000 + k) as u16),
        s.read((0x8000 + k) as u16) == (s, s.cart->0.prg[k as int]),
{
    reveal(CpuState::read);
    lemma_nrom_mirror(s.cart->0, k);
}

/// After a PRG image of a single bank is loaded without a cartridge, the
/// CPU loads byte `k` of the image from `$8000 + k` and from `$C000 + k`.
pub proof fn lemma_loaded_prg_mirror(s: CpuState, prg: Seq<u8>, k: u16)
    requires
        prg.len() == 0x4000,
        k < 0x4000,
    ensures
        s.load_prg(prg).read((0x8000 + k) as u16).1 == prg[k as int],
        s.load_prg(prg).read((0xC000 + k) as u16).1 == prg[k as int],
{
    reveal(CpuState::read);
}

/// A store from `$8000` on does not reach the internal bytes while a
/// cartridge is in place: the cartridge absorbs it, and the state is as
/// before.
pub proof fn lemma_cartridge_absorbs_stores(s: CpuState, addr: u16, data: u8)
    requires
        s.cart is Some,
        addr >= 0x8000,
    ensures
        s.write(addr, data) == s,
{
    reveal(CpuState::write);
}

} // verus!
