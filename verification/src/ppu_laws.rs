//! Laws of the PPU register interface, proved over [`PpuState`].

use crate::ppu::PpuState;
use crate::rom::Mirroring;
use vstd::prelude::*;

verus! {

/// A read of the status register returns the byte the register held; after
/// it bit 7 is clear, the other seven bits are as before, both write latches
/// are reset, and nothing else has changed.
pub proof fn lemma_status_read_clears_vblank_and_latches(s: PpuState)
    ensures
        s.read_register(0x2002).1 == s.status,
        s.read_register(0x2002).0.status & 0x80u8 == 0,
        s.read_register(0x2002).0.status & 0x7Fu8 == s.status & 0x7Fu8,
        !s.read_register(0x2002).0.addr_latch,
        !s.read_register(0x2002).0.scroll_latch,
        s.read_register(0x2002).0 == (PpuState {
            status: s.read_register(0x2002).0.status,
            addr_latch: false,
            scroll_latch: false,
            ..s
        }),
{
    let status = s.status;
    assert((status & 0x7Fu8) & 0x80u8 == 0 && (status & 0x7Fu8) & 0x7Fu8 == status & 0x7Fu8)
        by (bit_vector);
}

/// A read through the data port changes no byte of PPU memory.
pub proof fn lemma_data_read_keeps_memory(s: PpuState, addr: u16)
    ensures
        s.read_register(0x2007).0.mem_read(addr) == s.mem_read(addr),
{
}

/// Below the palette, the data port is buffered: a read returns the old
/// buffer and loads the buffer with the byte at the current address, so the
/// next read, if it is below the palette too, returns that byte.
pub proof fn lemma_data_reads_are_buffered(s: PpuState)
    requires
        s.data_addr() < 0x3F00,
    ensures
        s.read_register(0x2007).1 == s.read_buffer,
        s.read_register(0x2007).0.read_buffer == s.mem_read(s.data_addr()),
        s.read_register(0x2007).0.vram_addr == s.vram_addr.wrapping_add(s.increment()),
        s.read_register(0x2007).0.data_addr() < 0x3F00 ==> s.read_register(
            0x2007,
        ).0.read_register(0x2007).1 == s.mem_read(s.data_addr()),
{
}

/// The state after `n` reads of the data port.
pub open spec fn after_data_reads(s: PpuState, n: nat) -> PpuState
    decreases n,
{
    if n == 0 {
        s
    } else {
        after_data_reads(s, (n - 1) as nat).read_register(0x2007).0
    }
}

/// Reads of the data port change the read buffer and the VRAM address and
/// nothing else, and each read advances the address by the step that the
/// control register selects, modulo 65536.
pub proof fn lemma_data_reads_advance(s: PpuState, n: nat)
    ensures
        after_data_reads(s, n) == (PpuState {
            read_buffer: after_data_reads(s, n).read_buffer,
            vram_addr: after_data_reads(s, n).vram_addr,
            ..s
        }),
        after_data_reads(s, n).vram_addr == (s.vram_addr + n * s.increment()) % 65536,
    decreases n,
{
    if n > 0 {
        let before = after_data_reads(s, (n - 1) as nat);
        lemma_data_reads_advance(s, (n - 1) as nat);
        let step = s.increment();
        assert(before.increment() == step);
        assert(n * step == (n - 1) * step + step) by (nonlinear_arith);
        assert(before.vram_addr.wrapping_add(step) == (s.vram_addr + n * step) % 65536) by {
            let base: int = s.vram_addr + (n - 1) * step;
            assert(before.vram_addr == base % 65536);
            assert((base % 65536 + step) % 65536 == (base + step) % 65536) by (nonlinear_arith)
                requires
                    0 <= step < 65536,
            ;
        }
    }
}

/// In a run of reads of the data port that all lie below the palette, the
/// first read returns the buffer as it was, and every later read returns the
/// byte that lay at the address of the read before it.
pub proof fn lemma_data_read_sequence(s: PpuState, n: nat)
    requires
        forall|i: nat| i <= n ==> #[trigger] after_data_reads(s, i).data_addr() < 0x3F00,
    ensures
        after_data_reads(s, 0).read_register(0x2007).1 == s.read_buffer,
        n >= 1 ==> after_data_reads(s, n).read_register(0x2007).1 == s.mem_read(
            after_data_reads(s, (n - 1) as nat).data_addr(),
        ),
{
    assert(after_data_reads(s, 0).data_addr() < 0x3F00);
    if n >= 1 {
        let before = after_data_reads(s, (n - 1) as nat);
        lemma_data_reads_advance(s, (n - 1) as nat);
        assert(before.data_addr() < 0x3F00);
        assert(after_data_reads(s, n).data_addr() < 0x3F00);
        assert(after_data_reads(s, n) == before.read_register(0x2007).0);
        assert(before.mem_read(before.data_addr()) == s.mem_read(before.data_addr()));
    }
}

/// In the palette, the data port is not buffered: a read returns the palette
/// byte at the current address, and the buffer takes the nametable byte that
/// lies `$1000` below.
pub proof fn lemma_palette_reads_are_immediate(s: PpuState)
    requires
        s.data_addr() >= 0x3F00,
    ensures
        s.read_register(0x2007).1 == s.mem_read(s.data_addr()),
        s.read_register(0x2007).1 == s.palette[crate::ppu::palette_index(s.data_addr())],
        s.read_register(0x2007).0.read_buffer == s.mem_read((s.data_addr() - 0x1000) as u16),
{
    let v = s.vram_addr;
    assert(v & 0x3FFFu16 <= 0x3FFF) by (bit_vector);
}

/// A byte written to PPU memory at a nametable or palette address is read
/// back from the same address.
pub proof fn lemma_mem_write_then_read(s: PpuState, addr: u16, data: u8)
    requires
        s.wf(),
        0x2000 <= addr < 0x4000,
    ensures
        s.mem_write(addr, data).mem_read(addr) == data,
        s.mem_write(addr, data).wf(),
{
}

/// Palette entries `$10`, `$14`, `$18` and `$1C` are entries `$00`, `$04`,
/// `$08` and `$0C`: a byte written through either address of such a pair is
/// read through the other, in every repetition of the palette up to `$3FFF`.
pub proof fn lemma_palette_alias(s: PpuState, lower: u16, data: u8)
    requires
        s.wf(),
        0x3F00 <= lower < 0x4000,
        (lower - 0x3F00) % 0x20 == 0x00 || (lower - 0x3F00) % 0x20 == 0x04 || (lower - 0x3F00)
            % 0x20 == 0x08 || (lower - 0x3F00) % 0x20 == 0x0C,
    ensures
        s.mem_write((lower + 0x10) as u16, data).mem_read(lower) == data,
        s.mem_write(lower, data).mem_read((lower + 0x10) as u16) == data,
{
}

/// The nametable range repeats at `$3000..=$3EFF`: a read there returns what
/// the address `$1000` below returns, under every mirroring.
pub proof fn lemma_3000_mirrors_2000(s: PpuState, addr: u16)
    requires
        0x3000 <= addr < 0x3F00,
    ensures
        s.mem_read(addr) == s.mem_read((addr - 0x1000) as u16),
{
}

/// Under horizontal mirroring the tables at `$2000` and `$2400` are one
/// page, and so are those at `$2800` and `$2C00`: a byte written in one is
/// read at the same offset of the other.
pub proof fn lemma_horizontal_mirroring(s: PpuState, offset: u16, data: u8)
    requires
        s.wf(),
        s.mirroring == Mirroring::Horizontal,
        offset < 0x400,
    ensures
        s.mem_write((0x2400 + offset) as u16, data).mem_read((0x2000 + offset) as u16) == data,
        s.mem_write((0x2000 + offset) as u16, data).mem_read((0x2400 + offset) as u16) == data,
        s.mem_write((0x2C00 + offset) as u16, data).mem_read((0x2800 + offset) as u16) == data,
        s.mem_write((0x2800 + offset) as u16, data).mem_read((0x2C00 + offset) as u16) == data,
        s.mem_write((0x2800 + offset) as u16, data).mem_read((0x2000 + offset) as u16)
            == s.mem_read((0x2000 + offset) as u16),
{
}

/// Under vertical mirroring, and under four-screen, which is folded to it,
/// the tables at `$2000` and `$2800` are one page, and so are those at
/// `$2400` and `$2C00`.
pub proof fn lemma_vertical_mirroring(s: PpuState, offset: u16, data: u8)
    requires
        s.wf(),
        s.mirroring == Mirroring::Vertical || s.mirroring == Mirroring::FourScreen,
        offset < 0x400,
    ensures
        s.mem_write((0x2800 + offset) as u16, data).mem_read((0x2000 + offset) as u16) == data,
        s.mem_write((0x2000 + offset) as u16, data).mem_read((0x2800 + offset) as u16) == data,
        s.mem_write((0x2C00 + offset) as u16, data).mem_read((0x2400 + offset) as u16) == data,
        s.mem_write((0x2400 + offset) as u16, data).mem_read((0x2C00 + offset) as u16) == data,
        s.mem_write((0x2400 + offset) as u16, data).mem_read((0x2000 + offset) as u16)
            == s.mem_read((0x2000 + offset) as u16),
{
}

} // verus!
