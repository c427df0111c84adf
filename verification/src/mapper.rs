//! Cartridge mappers: how CPU and PPU addresses select bytes of the
//! cartridge's own PRG and CHR memory.

use vstd::prelude::*;

verus! {

/// Length of one PRG bank.
pub const PRG_ROM_BANK_SIZE: usize = 0x4000;

/// Length of the CHR area.
pub const CHR_BANK_SIZE: usize = 0x2000;

/// The interface a cartridge offers to the CPU bus and to the PPU bus.
///
/// A read answers `None`, and a write answers `false`, where the cartridge
/// does not decode the address. An implementation says through the four
/// `*_spec` functions what its answers are and what a write makes of its
/// view: every answer is a function of the view and the arguments, and a
/// read changes nothing.
pub trait Mapper: View {
    /// What a CPU read of `addr` answers.
    spec fn cpu_read_spec(state: Self::V, addr: u16) -> Option<u8>;

    /// The view after a CPU write of `data` to `addr`, and whether the
    /// cartridge decoded the write.
    spec fn cpu_write_spec(state: Self::V, addr: u16, data: u8) -> (Self::V, bool);

    /// What a PPU read of `addr` answers.
    spec fn ppu_read_spec(state: Self::V, addr: u16) -> Option<u8>;

    /// The view after a PPU write of `data` to `addr`, and whether the
    /// cartridge decoded the write.
    spec fn ppu_write_spec(state: Self::V, addr: u16, data: u8) -> (Self::V, bool);

    /// Serves a CPU read.
    fn cpu_read(&self, addr: u16) -> (r: Option<u8>)
        ensures
            r == Self::cpu_read_spec(self@, addr),
    ;

    /// Serves a CPU write.
    fn cpu_write(&mut self, addr: u16, data: u8) -> (accepted: bool)
        ensures
            (final(self)@, accepted) == Self::cpu_write_spec(old(self)@, addr, data),
    ;

    /// Serves a PPU read.
    fn ppu_read(&self, addr: u16) -> (r: Option<u8>)
        ensures
            r == Self::ppu_read_spec(self@, addr),
    ;

    /// Serves a PPU write.
    fn ppu_write(&mut self, addr: u16, data: u8) -> (accepted: bool)
        ensures
            (final(self)@, accepted) == Self::ppu_write_spec(old(self)@, addr, data),
    ;
}

/// Why a mapper could not be built.
#[derive(Debug, PartialEq, Eq, Structural)]
pub enum MapperError {
    InvalidPrgSize(usize),
}

/// The mathematical content of an [`NromMapper`].
pub ghost struct NromState {
    pub prg: Seq<u8>,
    pub chr: Seq<u8>,
    pub chr_is_ram: bool,
}

impl NromState {
    /// PRG is one bank or two, and writable CHR is exactly one CHR bank.
    pub open spec fn wf(self) -> bool {
        &&& (self.prg.len() == 0x4000 || self.prg.len() == 0x8000)
        &&& (self.chr_is_ram ==> self.chr.len() == 0x2000)
    }

    /// Index into PRG that a CPU address in `$8000..=$FFFF` selects: a single
    /// bank appears in both halves of the window.
    pub open spec fn prg_index(self, addr: u16) -> int {
        if self.prg.len() == 0x4000 {
            (addr - 0x8000) % 0x4000
        } else {
            addr - 0x8000
        }
    }

    /// What the CPU reads at `addr`.
    pub open spec fn cpu_read(self, addr: u16) -> Option<u8> {
        if addr >= 0x8000 {
            Some(self.prg[self.prg_index(addr)])
        } else {
            None
        }
    }

    /// Whether the cartridge absorbs a CPU write at `addr`. PRG is read-only,
    /// so an absorbed write is discarded.
    pub open spec fn cpu_accepts(self, addr: u16) -> bool {
        addr >= 0x8000
    }

    /// What the PPU reads at `addr`: the CHR byte where there is one, zero
    /// elsewhere in the pattern-table range.
    pub open spec fn ppu_read(self, addr: u16) -> Option<u8> {
        if addr > 0x1FFF {
            None
        } else if addr < self.chr.len() {
            Some(self.chr[addr as int])
        } else {
            Some(0u8)
        }
    }

    /// The cartridge after the PPU writes `data` at `addr`: CHR RAM takes the
    /// byte, CHR ROM stays as it is.
    pub open spec fn ppu_write(self, addr: u16, data: u8) -> NromState {
        if addr <= 0x1FFF && self.chr_is_ram {
            NromState { chr: self.chr.update(addr as int, data), ..self }
        } else {
            self
        }
    }

    /// Whether the cartridge decodes a PPU write at `addr`.
    pub open spec fn ppu_accepts(self, addr: u16) -> bool {
        addr <= 0x1FFF
    }
}

/// What `NromMapper::new` is given: the cartridge it builds, or the reason for
/// which it refuses. With `has_chr_ram` the CHR argument is ignored and the
/// cartridge gets one zeroed bank of CHR RAM.
pub open spec fn nrom_new(prg: Seq<u8>, chr: Seq<u8>, has_chr_ram: bool) -> Result<
    NromState,
    MapperError,
> {
    if prg.len() != 0x4000 && prg.len() != 0x8000 {
        Err(MapperError::InvalidPrgSize(prg.len() as usize))
    } else if has_chr_ram {
        Ok(NromState { prg, chr: Seq::new(0x2000, |i: int| 0u8), chr_is_ram: true })
    } else {
        Ok(NromState { prg, chr, chr_is_ram: false })
    }
}

/// Mapper 0: 16 KiB or 32 KiB of PRG ROM and 8 KiB of CHR ROM or RAM, with no
/// bank switching.
pub struct NromMapper {
    prg_rom: Vec<u8>,
    chr: Vec<u8>,
    chr_is_ram: bool,
}

impl View for NromMapper {
    type V = NromState;

    closed spec fn view(&self) -> NromState {
        NromState { prg: self.prg_rom@, chr: self.chr@, chr_is_ram: self.chr_is_ram }
    }
}

impl NromMapper {
    #[verifier::type_invariant]
    spec fn inv(self) -> bool {
        self@.wf()
    }

    /// Builds the mapper for a cartridge with the given PRG and CHR.
    pub fn new(prg_rom: Vec<u8>, chr_rom: Vec<u8>, has_chr_ram: bool) -> (r: Result<
        Self,
        MapperError,
    >)
        ensures
            match r {
                Ok(m) => nrom_new(prg_rom@, chr_rom@, has_chr_ram) == Ok::<NromState, MapperError>(
                    m@,
                ),
                Err(e) => nrom_new(prg_rom@, chr_rom@, has_chr_ram) == Err::<NromState, MapperError>(
                    e,
                ),
            },
    {
        let size: usize = prg_rom.len();
        if size != PRG_ROM_BANK_SIZE && size != 2 * PRG_ROM_BANK_SIZE {
            return Err(MapperError::InvalidPrgSize(size));
        }
        if has_chr_ram {
            let chr = zeroed_bank();
            Ok(NromMapper { prg_rom, chr, chr_is_ram: true })
        } else {
            Ok(NromMapper { prg_rom, chr: chr_rom, chr_is_ram: false })
        }
    }
}

/// One CHR bank of zero bytes.
fn zeroed_bank() -> (bank: Vec<u8>)
    ensures
        bank@ == Seq::new(0x2000, |i: int| 0u8),
{
    let mut bank: Vec<u8> = Vec::new();
    while bank.len() < CHR_BANK_SIZE
        invariant
            bank.len() <= 0x2000,
            forall|i: int| 0 <= i < bank.len() ==> bank[i] == 0u8,
        decreases 0x2000 - bank.len(),
    {
        bank.push(0);
    }
    assert(bank@ =~= Seq::new(0x2000, |i: int| 0u8));
    bank
}

impl Mapper for NromMapper {
    open spec fn cpu_read_spec(state: NromState, addr: u16) -> Option<u8> {
        state.cpu_read(addr)
    }

    open spec fn cpu_write_spec(state: NromState, addr: u16, data: u8) -> (NromState, bool) {
        (state, state.cpu_accepts(addr))
    }

    open spec fn ppu_read_spec(state: NromState, addr: u16) -> Option<u8> {
        state.ppu_read(addr)
    }

    open spec fn ppu_write_spec(state: NromState, addr: u16, data: u8) -> (NromState, bool) {
        (state.ppu_write(addr, data), state.ppu_accepts(addr))
    }

    /// Reads PRG through the CPU window `$8000..=$FFFF`.
    fn cpu_read(&self, addr: u16) -> (r: Option<u8>) {
        proof {
            use_type_invariant(self);
            assert(Self::cpu_read_spec(self@, addr) == self@.cpu_read(addr));
        }
        if addr < 0x8000 {
            return None;
        }
        let offset: usize = (addr - 0x8000) as usize;
        let mapped: usize = if self.prg_rom.len() == PRG_ROM_BANK_SIZE {
            offset % PRG_ROM_BANK_SIZE
        } else {
            offset
        };
        Some(self.prg_rom[mapped])
    }

    /// Absorbs and discards a write in the CPU window.
    fn cpu_write(&mut self, addr: u16, data: u8) -> (accepted: bool) {
        addr >= 0x8000
    }

    /// Reads CHR through the pattern-table range `$0000..=$1FFF`.
    fn ppu_read(&self, addr: u16) -> (r: Option<u8>) {
        if addr > 0x1FFF {
            return None;
        }
        let index: usize = addr as usize;
        if index < self.chr.len() {
            Some(self.chr[index])
        } else {
            Some(0)
        }
    }

    /// Writes CHR RAM; a write to CHR ROM is decoded and dropped.
    fn ppu_write(&mut self, addr: u16, data: u8) -> (accepted: bool) {
        proof {
            use_type_invariant(&*self);
        }
        if addr > 0x1FFF {
            return false;
        }
        if self.chr_is_ram {
            self.chr[addr as usize] = data;
        }
        true
    }
}

} // verus!
