//! iNES cartridge images.

use vstd::prelude::*;
use vstd::slice::slice_subrange;
use vstd::slice::slice_to_vec;

verus! {

/// Length of the iNES header.
pub const INES_HEADER_SIZE: usize = 16;

/// Length of the optional trainer block that may follow the header.
pub const INES_TRAINER_SIZE: usize = 512;

/// Length of one PRG bank.
pub const PRG_ROM_PAGE_SIZE: usize = 16384;

/// Length of one CHR bank.
pub const CHR_ROM_PAGE_SIZE: usize = 8192;

/// How the four logical nametables are folded onto the two physical pages.
#[derive(Debug, Clone, Copy, PartialEq, Eq, Structural)]
pub enum Mirroring {
    Horizontal,
    Vertical,
    FourScreen,
}

/// Why an image was rejected.
#[derive(Debug, PartialEq, Eq, Structural)]
pub enum RomError {
    InvalidHeader,
    UnsupportedMapper(u8),
    Truncated,
}

/// A parsed cartridge.
#[derive(Debug, PartialEq, Eq)]
pub struct Rom {
    pub prg_rom: Vec<u8>,
    pub chr_rom: Vec<u8>,
    pub mapper: u8,
    pub mirroring: Mirroring,
    pub has_chr_ram: bool,
}

/// The mathematical content of a [`Rom`].
pub ghost struct CartridgeImage {
    pub prg: Seq<u8>,
    pub chr: Seq<u8>,
    pub mapper: u8,
    pub mirroring: Mirroring,
    pub has_chr_ram: bool,
}

impl View for Rom {
    type V = CartridgeImage;

    open spec fn view(&self) -> CartridgeImage {
        CartridgeImage {
            prg: self.prg_rom@,
            chr: self.chr_rom@,
            mapper: self.mapper,
            mirroring: self.mirroring,
            has_chr_ram: self.has_chr_ram,
        }
    }
}

/// The first four bytes are `N`, `E`, `S`, `^Z`.
pub open spec fn ines_magic(raw: Seq<u8>) -> bool {
    &&& raw.len() >= 4
    &&& raw[0] == 0x4Eu8
    &&& raw[1] == 0x45u8
    &&& raw[2] == 0x53u8
    &&& raw[3] == 0x1Au8
}

/// The mapper number: low nibble from the high half of byte 6, high nibble
/// from the high half of byte 7.
pub open spec fn ines_mapper(raw: Seq<u8>) -> u8 {
    (raw[6] >> 4u8) | (raw[7] & 0xF0u8)
}

/// Bit 2 of byte 6 announces a trainer block.
pub open spec fn ines_has_trainer(raw: Seq<u8>) -> bool {
    raw[6] & 0x04u8 != 0
}

/// Bit 3 of byte 6 selects four-screen mirroring and overrides bit 0, which
/// selects vertical over horizontal mirroring.
pub open spec fn ines_mirroring(raw: Seq<u8>) -> Mirroring {
    if raw[6] & 0x08u8 != 0 {
        Mirroring::FourScreen
    } else if raw[6] & 0x01u8 != 0 {
        Mirroring::Vertical
    } else {
        Mirroring::Horizontal
    }
}

/// Offset of the first PRG byte.
pub open spec fn ines_prg_start(raw: Seq<u8>) -> int {
    if ines_has_trainer(raw) {
        528
    } else {
        16
    }
}

/// Number of PRG bytes that the header announces.
pub open spec fn ines_prg_len(raw: Seq<u8>) -> int {
    raw[4] * 16384
}

/// Number of CHR bytes that the header announces.
pub open spec fn ines_chr_len(raw: Seq<u8>) -> int {
    raw[5] * 8192
}

/// Offset of the first CHR byte.
pub open spec fn ines_chr_start(raw: Seq<u8>) -> int {
    ines_prg_start(raw) + ines_prg_len(raw)
}

/// Number of bytes a file with this header must hold.
pub open spec fn ines_required_len(raw: Seq<u8>) -> int {
    ines_chr_start(raw) + ines_chr_len(raw)
}

/// What an iNES file denotes: the cartridge it describes, or the reason for
/// which it is rejected.
pub open spec fn parse_ines(raw: Seq<u8>) -> Result<CartridgeImage, RomError> {
    if raw.len() < 16 {
        Err(RomError::Truncated)
    } else if !ines_magic(raw) {
        Err(RomError::InvalidHeader)
    } else if ines_mapper(raw) != 0 {
        Err(RomError::UnsupportedMapper(ines_mapper(raw)))
    } else if raw.len() < ines_required_len(raw) {
        Err(RomError::Truncated)
    } else {
        Ok(
            CartridgeImage {
                prg: raw.subrange(ines_prg_start(raw), ines_chr_start(raw)),
                chr: raw.subrange(ines_chr_start(raw), ines_required_len(raw)),
                mapper: 0,
                mirroring: ines_mirroring(raw),
                has_chr_ram: raw[5] == 0,
            },
        )
    }
}

impl Rom {
    /// Parses an iNES file.
    pub fn from_bytes(raw: &[u8]) -> (r: Result<Rom, RomError>)
        ensures
            match r {
                Ok(rom) => parse_ines(raw@) == Ok::<CartridgeImage, RomError>(rom@),
                Err(e) => parse_ines(raw@) == Err::<CartridgeImage, RomError>(e),
            },
    {
        if raw.len() < INES_HEADER_SIZE {
            return Err(RomError::Truncated);
        }
        if raw[0] != 0x4E || raw[1] != 0x45 || raw[2] != 0x53 || raw[3] != 0x1A {
            return Err(RomError::InvalidHeader);
        }
        let prg_rom_banks: usize = raw[4] as usize;
        let chr_rom_banks: usize = raw[5] as usize;
        let flags6: u8 = raw[6];
        let flags7: u8 = raw[7];
        let mapper: u8 = (flags6 >> 4u8) | (flags7 & 0xF0u8);
        if mapper != 0 {
            return Err(RomError::UnsupportedMapper(mapper));
        }
        let trainer_present: bool = flags6 & 0x04u8 != 0;
        let mirroring = if flags6 & 0x08u8 != 0 {
            Mirroring::FourScreen
        } else if flags6 & 0x01u8 != 0 {
            Mirroring::Vertical
        } else {
            Mirroring::Horizontal
        };
        let prg_start: usize = if trainer_present {
            INES_HEADER_SIZE + INES_TRAINER_SIZE
        } else {
            INES_HEADER_SIZE
        };
        let prg_size: usize = prg_rom_banks * PRG_ROM_PAGE_SIZE;
        let chr_size: usize = chr_rom_banks * CHR_ROM_PAGE_SIZE;
        let chr_start: usize = prg_start + prg_size;
        let required_size: usize = chr_start + chr_size;
        if raw.len() < required_size {
            return Err(RomError::Truncated);
        }
        let prg_rom = slice_to_vec(slice_subrange(raw, prg_start, chr_start));
        let chr_rom = slice_to_vec(slice_subrange(raw, chr_start, required_size));
        Ok(Rom { prg_rom, chr_rom, mapper, mirroring, has_chr_ram: chr_rom_banks == 0 })
    }
}

} // verus!
