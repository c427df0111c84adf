//! The APU register window: a write sink whose status register reads back.

use vstd::prelude::*;

verus! {

/// First address of the APU register window.
pub const APU_FIRST: u16 = 0x4000;

/// Last address of the APU register window.
pub const APU_LAST: u16 = 0x4017;

/// Address of the one register that reads back.
pub const APU_STATUS: u16 = 0x4015;

/// Whether `addr` lies in the register window.
pub open spec fn is_apu_register(addr: u16) -> bool {
    0x4000 <= addr <= 0x4017
}

/// The registers after `data` is written to `addr`: the addressed register
/// takes the byte, and a write outside the window changes nothing.
pub open spec fn apu_write(regs: Seq<u8>, addr: u16, data: u8) -> Seq<u8> {
    if is_apu_register(addr) {
        regs.update(addr - 0x4000, data)
    } else {
        regs
    }
}

/// What a read of `addr` returns: the stored byte for the status register,
/// zero for every other address.
pub open spec fn apu_read(regs: Seq<u8>, addr: u16) -> u8 {
    if addr == 0x4015 {
        regs[0x15]
    } else {
        0
    }
}

/// The 24 registers of the APU.
pub struct Apu {
    pub registers: [u8; 0x18],
}

impl View for Apu {
    type V = Seq<u8>;

    open spec fn view(&self) -> Seq<u8> {
        self.registers@
    }
}

impl Apu {
    /// All registers cleared.
    pub fn new() -> (apu: Self)
        ensures
            apu@ == Seq::new(0x18, |i: int| 0u8),
    {
        let apu = Apu { registers: [0; 0x18] };
        assert(apu@ =~= Seq::new(0x18, |i: int| 0u8));
        apu
    }

    /// Whether `addr` lies in the register window.
    fn is_apu_register(addr: u16) -> (b: bool)
        ensures
            b == is_apu_register(addr),
    {
        APU_FIRST <= addr && addr <= APU_LAST
    }

    /// Stores `data` in the register at `addr`.
    pub fn write_register(&mut self, addr: u16, data: u8)
        ensures
            final(self)@ == apu_write(old(self)@, addr, data),
    {
        if Self::is_apu_register(addr) {
            self.registers[(addr - APU_FIRST) as usize] = data;
        }
    }

    /// Reads the register at `addr`.
    pub fn read_register(&self, addr: u16) -> (data: u8)
        ensures
            data == apu_read(self@, addr),
    {
        if addr == APU_STATUS {
            self.registers[(addr - APU_FIRST) as usize]
        } else {
            0
        }
    }
}

} // verus!
