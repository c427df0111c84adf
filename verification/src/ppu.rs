//! The PPU as the CPU sees it: eight memory-mapped registers in front of the
//! nametable memory, the palette and the sprite memory.

use crate::rom::Mirroring;
use vstd::prelude::*;

verus! {

/// Control register.
pub const PPU_CTRL: u16 = 0x2000;

/// Mask register.
pub const PPU_MASK: u16 = 0x2001;

/// Status register.
pub const PPU_STATUS: u16 = 0x2002;

/// Sprite address register.
pub const PPU_OAM_ADDR: u16 = 0x2003;

/// Sprite data port.
pub const PPU_OAM_DATA: u16 = 0x2004;

/// Scroll register, written twice.
pub const PPU_SCROLL: u16 = 0x2005;

/// VRAM address register, written twice.
pub const PPU_ADDR: u16 = 0x2006;

/// VRAM data port.
pub const PPU_DATA: u16 = 0x2007;

/// The physical page, 0 or 1, that holds logical nametable `table` (0 to 3).
/// Horizontal mirroring pairs the tables side by side, vertical mirroring
/// pairs them one above the other, and four-screen is folded to vertical.
pub open spec fn nametable_page(mirroring: Mirroring, table: int) -> int {
    match mirroring {
        Mirroring::Horizontal => table / 2,
        Mirroring::Vertical => table % 2,
        Mirroring::FourScreen => table % 2,
    }
}

/// Index into the 2 KiB of nametable memory for a PPU address in
/// `$2000..=$2FFF`.
pub open spec fn vram_index(mirroring: Mirroring, addr: u16) -> int {
    let linear = addr - 0x2000;
    nametable_page(mirroring, linear / 0x400) * 0x400 + linear % 0x400
}

/// Index into the 32 palette bytes for a PPU address from `$3F00` on:
/// entries `$10`, `$14`, `$18` and `$1C` are the entries sixteen below them.
pub open spec fn palette_index(addr: u16) -> int {
    let entry = (addr - 0x3F00) % 0x20;
    if entry == 0x10 || entry == 0x14 || entry == 0x18 || entry == 0x1C {
        entry - 0x10
    } else {
        entry
    }
}

/// The mathematical content of a [`Ppu`].
pub ghost struct PpuState {
    pub ctrl: u8,
    pub mask: u8,
    pub status: u8,
    pub oam_addr: u8,
    pub addr_latch: bool,
    pub scroll_latch: bool,
    pub vram_addr: u16,
    pub temp_vram_addr: u16,
    pub read_buffer: u8,
    pub vram: Seq<u8>,
    pub palette: Seq<u8>,
    pub oam: Seq<u8>,
    pub mirroring: Mirroring,
}

impl PpuState {
    /// The three memories have their hardware sizes.
    pub open spec fn wf(self) -> bool {
        &&& self.vram.len() == 2048
        &&& self.palette.len() == 32
        &&& self.oam.len() == 256
    }

    /// The state after power-on.
    pub open spec fn power_on(mirroring: Mirroring) -> PpuState {
        PpuState {
            ctrl: 0,
            mask: 0,
            status: 0,
            oam_addr: 0,
            addr_latch: false,
            scroll_latch: false,
            vram_addr: 0,
            temp_vram_addr: 0,
            read_buffer: 0,
            vram: Seq::new(2048, |i: int| 0u8),
            palette: Seq::new(32, |i: int| 0u8),
            oam: Seq::new(256, |i: int| 0u8),
            mirroring,
        }
    }

    /// The byte at `addr` of the PPU's own address space. Pattern tables
    /// read as zero, `$3000..=$3EFF` shows the nametables again, and nothing
    /// lies above `$3FFF`.
    pub open spec fn mem_read(self, addr: u16) -> u8 {
        if addr < 0x2000 {
            0
        } else if addr < 0x3000 {
            self.vram[vram_index(self.mirroring, addr)]
        } else if addr < 0x3F00 {
            self.vram[vram_index(self.mirroring, (addr - 0x1000) as u16)]
        } else if addr < 0x4000 {
            self.palette[palette_index(addr)]
        } else {
            0
        }
    }

    /// The state after `data` is stored at `addr` of the PPU's own address
    /// space. Stores to the pattern tables and above `$3FFF` are dropped.
    pub open spec fn mem_write(self, addr: u16, data: u8) -> PpuState {
        if addr < 0x2000 {
            self
        } else if addr < 0x3000 {
            PpuState { vram: self.vram.update(vram_index(self.mirroring, addr), data), ..self }
        } else if addr < 0x3F00 {
            PpuState {
                vram: self.vram.update(vram_index(self.mirroring, (addr - 0x1000) as u16), data),
                ..self
            }
        } else if addr < 0x4000 {
            PpuState { palette: self.palette.update(palette_index(addr), data), ..self }
        } else {
            self
        }
    }

    /// The step by which the data port advances the VRAM address: 32 with
    /// bit 2 of the control register, 1 without.
    pub open spec fn increment(self) -> u16 {
        if self.ctrl & 0x04u8 != 0 {
            32
        } else {
            1
        }
    }

    /// The address that the data port accesses.
    pub open spec fn data_addr(self) -> u16 {
        self.vram_addr & 0x3FFFu16
    }

    /// A read of the data port. A palette address answers at once and
    /// refills the buffer from the nametable byte `$1000` below; any other
    /// address answers with the buffer and refills it from the address.
    /// Either way the VRAM address advances.
    pub open spec fn read_data(self) -> (PpuState, u8) {
        let addr = self.data_addr();
        let advanced = self.vram_addr.wrapping_add(self.increment());
        if addr >= 0x3F00 {
            (
                PpuState {
                    read_buffer: self.mem_read((addr - 0x1000) as u16),
                    vram_addr: advanced,
                    ..self
                },
                self.mem_read(addr),
            )
        } else {
            (
                PpuState { read_buffer: self.mem_read(addr), vram_addr: advanced, ..self },
                self.read_buffer,
            )
        }
    }

    /// A write to the data port: the byte is stored and the VRAM address
    /// advances.
    pub open spec fn write_data(self, data: u8) -> PpuState {
        PpuState {
            vram_addr: self.vram_addr.wrapping_add(self.increment()),
            ..self.mem_write(self.data_addr(), data)
        }
    }

    /// A read of the status register: bit 7 and both write latches clear.
    pub open spec fn read_status(self) -> (PpuState, u8) {
        (
            PpuState {
                status: self.status & 0x7Fu8,
                addr_latch: false,
                scroll_latch: false,
                ..self
            },
            self.status,
        )
    }

    /// A write to the control register, which also sets bits 10 and 11 of
    /// the temporary address from bits 0 and 1 of the byte.
    pub open spec fn write_ctrl(self, data: u8) -> PpuState {
        PpuState {
            ctrl: data,
            temp_vram_addr: (self.temp_vram_addr & !0x0C00u16) | (((data as u16) & 0x03u16)
                << 10u16),
            ..self
        }
    }

    /// A write to the sprite data port: the byte goes to the addressed sprite
    /// byte and the sprite address moves on by one, modulo 256.
    pub open spec fn write_oam_data(self, data: u8) -> PpuState {
        PpuState {
            oam: self.oam.update(self.oam_addr as int, data),
            oam_addr: self.oam_addr.wrapping_add(1),
            ..self
        }
    }

    /// A write to the scroll register. The first of a pair sets coarse X
    /// (bits 0 to 4 of the temporary address); the second sets fine Y (bits
    /// 12 to 14) and coarse Y (bits 5 to 9).
    pub open spec fn write_scroll(self, data: u8) -> PpuState {
        if !self.scroll_latch {
            PpuState {
                temp_vram_addr: (self.temp_vram_addr & !0x001Fu16) | ((data as u16) >> 3u16),
                scroll_latch: true,
                ..self
            }
        } else {
            PpuState {
                temp_vram_addr: (self.temp_vram_addr & !0x73E0u16) | (((data as u16) & 0x07u16)
                    << 12u16) | (((data as u16) & 0xF8u16) << 2u16),
                scroll_latch: false,
                ..self
            }
        }
    }

    /// A write to the address register. The first of a pair sets bits 8 to
    /// 13 of the temporary address and clears the bits above; the second
    /// sets its low byte and copies it to the VRAM address.
    pub open spec fn write_addr(self, data: u8) -> PpuState {
        if !self.addr_latch {
            PpuState {
                temp_vram_addr: (self.temp_vram_addr & 0x00FFu16) | (((data as u16) & 0x3Fu16)
                    << 8u16),
                addr_latch: true,
                ..self
            }
        } else {
            let t = (self.temp_vram_addr & 0xFF00u16) | (data as u16);
            PpuState { temp_vram_addr: t, vram_addr: t, addr_latch: false, ..self }
        }
    }

    /// A CPU read of register `reg` (`$2000..=$2007`): the state it leaves and
    /// the byte it returns. Write-only registers, and any other address, read
    /// as zero and change nothing.
    pub open spec fn read_register(self, reg: u16) -> (PpuState, u8) {
        if reg == 0x2002 {
            self.read_status()
        } else if reg == 0x2004 {
            (self, self.oam[self.oam_addr as int])
        } else if reg == 0x2007 {
            self.read_data()
        } else {
            (self, 0u8)
        }
    }

    /// The state after a CPU write of `data` to register `reg`
    /// (`$2000..=$2007`). The status register, and any other address, ignore
    /// the write.
    pub open spec fn write_register(self, reg: u16, data: u8) -> PpuState {
        if reg == 0x2000 {
            self.write_ctrl(data)
        } else if reg == 0x2001 {
            PpuState { mask: data, ..self }
        } else if reg == 0x2003 {
            PpuState { oam_addr: data, ..self }
        } else if reg == 0x2004 {
            self.write_oam_data(data)
        } else if reg == 0x2005 {
            self.write_scroll(data)
        } else if reg == 0x2006 {
            self.write_addr(data)
        } else if reg == 0x2007 {
            self.write_data(data)
        } else {
            self
        }
    }
}

/// The picture processing unit's register file and memories.
pub struct Ppu {
    pub ctrl: u8,
    pub mask: u8,
    pub status: u8,
    pub oam_addr: u8,
    pub addr_latch: bool,
    pub scroll_latch: bool,
    pub vram_addr: u16,
    pub temp_vram_addr: u16,
    pub read_buffer: u8,
    pub vram: [u8; 2048],
    pub palette_table: [u8; 32],
    pub oam_data: [u8; 256],
    pub mirroring: Mirroring,
}

impl View for Ppu {
    type V = PpuState;

    open spec fn view(&self) -> PpuState {
        PpuState {
            ctrl: self.ctrl,
            mask: self.mask,
            status: self.status,
            oam_addr: self.oam_addr,
            addr_latch: self.addr_latch,
            scroll_latch: self.scroll_latch,
            vram_addr: self.vram_addr,
            temp_vram_addr: self.temp_vram_addr,
            read_buffer: self.read_buffer,
            vram: self.vram@,
            palette: self.palette_table@,
            oam: self.oam_data@,
            mirroring: self.mirroring,
        }
    }
}

impl Ppu {
    /// A PPU in its power-on state.
    pub fn new(mirroring: Mirroring) -> (ppu: Self)
        ensures
            ppu@ == PpuState::power_on(mirroring),
    {
        let ppu = Ppu {
            ctrl: 0,
            mask: 0,
            status: 0,
            oam_addr: 0,
            addr_latch: false,
            scroll_latch: false,
            vram_addr: 0,
            temp_vram_addr: 0,
            read_buffer: 0,
            vram: [0; 2048],
            palette_table: [0; 32],
            oam_data: [0; 256],
            mirroring,
        };
        assert(ppu@.vram =~= Seq::new(2048, |i: int| 0u8));
        assert(ppu@.palette =~= Seq::new(32, |i: int| 0u8));
        assert(ppu@.oam =~= Seq::new(256, |i: int| 0u8));
        ppu
    }

    /// Selects the nametable layout.
    pub fn set_mirroring(&mut self, mirroring: Mirroring)
        ensures
            final(self)@ == (PpuState { mirroring, ..old(self)@ }),
    {
        self.mirroring = mirroring;
    }

    /// Serves a CPU read of register `reg`.
    pub fn read_register(&mut self, reg: u16) -> (data: u8)
        ensures
            (final(self)@, data) == old(self)@.read_register(reg),
    {
        if reg == PPU_STATUS {
            let status: u8 = self.status;
            self.status = self.status & 0x7F;
            self.addr_latch = false;
            self.scroll_latch = false;
            status
        } else if reg == PPU_OAM_DATA {
            self.oam_data[self.oam_addr as usize]
        } else if reg == PPU_DATA {
            self.read_ppu_data()
        } else {
            0
        }
    }

    /// Serves a CPU write of `data` to register `reg`.
    pub fn write_register(&mut self, reg: u16, data: u8)
        ensures
            final(self)@ == old(self)@.write_register(reg, data),
    {
        if reg == PPU_CTRL {
            self.ctrl = data;
            self.temp_vram_addr = (self.temp_vram_addr & !0x0C00u16) | (((data as u16) & 0x03u16)
                << 10u16);
        } else if reg == PPU_MASK {
            self.mask = data;
        } else if reg == PPU_OAM_ADDR {
            self.oam_addr = data;
        } else if reg == PPU_OAM_DATA {
            self.oam_data[self.oam_addr as usize] = data;
            self.oam_addr = self.oam_addr.wrapping_add(1);
        } else if reg == PPU_SCROLL {
            if !self.scroll_latch {
                self.temp_vram_addr = (self.temp_vram_addr & !0x001Fu16) | ((data as u16)
                    >> 3u16);
                self.scroll_latch = true;
            } else {
                self.temp_vram_addr = (self.temp_vram_addr & !0x73E0u16) | (((data as u16)
                    & 0x07u16) << 12u16) | (((data as u16) & 0xF8u16) << 2u16);
                self.scroll_latch = false;
            }
        } else if reg == PPU_ADDR {
            if !self.addr_latch {
                self.temp_vram_addr = (self.temp_vram_addr & 0x00FFu16) | (((data as u16)
                    & 0x3Fu16) << 8u16);
                self.addr_latch = true;
            } else {
                self.temp_vram_addr = (self.temp_vram_addr & 0xFF00u16) | (data as u16);
                self.vram_addr = self.temp_vram_addr;
                self.addr_latch = false;
            }
        } else if reg == PPU_DATA {
            self.write_ppu_data(data);
        }
    }

    /// The step of the data port.
    pub fn vram_addr_increment(&self) -> (step: u16)
        ensures
            step == self@.increment(),
    {
        if self.ctrl & 0x04u8 != 0 {
            32
        } else {
            1
        }
    }

    /// Serves a read of the data port.
    pub fn read_ppu_data(&mut self) -> (data: u8)
        ensures
            (final(self)@, data) == old(self)@.read_data(),
    {
        let addr: u16 = self.normalize_ppu_addr(self.vram_addr);
        let result: u8 = if addr >= 0x3F00 {
            let value: u8 = self.ppu_mem_read(addr);
            self.read_buffer = self.ppu_mem_read(addr - 0x1000);
            value
        } else {
            let buffered: u8 = self.read_buffer;
            self.read_buffer = self.ppu_mem_read(addr);
            buffered
        };
        self.vram_addr = self.vram_addr.wrapping_add(self.vram_addr_increment());
        result
    }

    /// Serves a write to the data port.
    pub fn write_ppu_data(&mut self, data: u8)
        ensures
            final(self)@ == old(self)@.write_data(data),
    {
        let addr: u16 = self.normalize_ppu_addr(self.vram_addr);
        self.ppu_mem_write(addr, data);
        self.vram_addr = self.vram_addr.wrapping_add(self.vram_addr_increment());
    }

    /// Reduces an address to the 14 bits that the PPU bus decodes.
    pub fn normalize_ppu_addr(&self, addr: u16) -> (reduced: u16)
        ensures
            reduced == addr & 0x3FFFu16,
            reduced <= 0x3FFF,
    {
        assert(addr & 0x3FFFu16 <= 0x3FFF) by (bit_vector);
        addr & 0x3FFF
    }

    /// Reads the PPU's own address space.
    pub fn ppu_mem_read(&self, addr: u16) -> (data: u8)
        ensures
            data == self@.mem_read(addr),
    {
        if addr < 0x2000 {
            0
        } else if addr < 0x3000 {
            let idx: usize = self.mirror_vram_addr(addr);
            self.vram[idx]
        } else if addr < 0x3F00 {
            let idx: usize = self.mirror_vram_addr(addr - 0x1000);
            self.vram[idx]
        } else if addr < 0x4000 {
            let idx: usize = self.mirror_palette_addr(addr);
            self.palette_table[idx]
        } else {
            0
        }
    }

    /// Writes the PPU's own address space.
    pub fn ppu_mem_write(&mut self, addr: u16, data: u8)
        ensures
            final(self)@ == old(self)@.mem_write(addr, data),
    {
        if addr < 0x2000 {
        } else if addr < 0x3000 {
            let idx: usize = self.mirror_vram_addr(addr);
            self.vram[idx] = data;
        } else if addr < 0x3F00 {
            let idx: usize = self.mirror_vram_addr(addr - 0x1000);
            self.vram[idx] = data;
        } else if addr < 0x4000 {
            let idx: usize = self.mirror_palette_addr(addr);
            self.palette_table[idx] = data;
        }
    }

    /// Folds a nametable address onto the physical nametable memory.
    pub fn mirror_vram_addr(&self, addr: u16) -> (idx: usize)
        requires
            0x2000 <= addr < 0x3000,
        ensures
            idx == vram_index(self.mirroring, addr),
            idx < 2048,
    {
        let linear: usize = (addr - 0x2000) as usize;
        let table: usize = linear / 0x400;
        let offset: usize = linear % 0x400;
        let page: usize = match self.mirroring {
            Mirroring::Horizontal => table / 2,
            Mirroring::Vertical => table % 2,
            Mirroring::FourScreen => table % 2,
        };
        page * 0x400 + offset
    }

    /// Folds a palette address onto the 32 palette bytes.
    pub fn mirror_palette_addr(&self, addr: u16) -> (idx: usize)
        requires
            0x3F00 <= addr,
        ensures
            idx == palette_index(addr),
            idx < 32,
    {
        let entry: usize = ((addr - 0x3F00) % 0x20) as usize;
        if entry == 0x10 || entry == 0x14 || entry == 0x18 || entry == 0x1C {
            entry - 0x10
        } else {
            entry
        }
    }
}

} // verus!
