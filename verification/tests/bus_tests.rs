use res_core::cpu::CpuLoadError;
use res_core::cpu::Mem;
use res_core::cpu::CPU;
use res_core::rom::Mirroring;
use res_core::rom::Rom;

fn cartridge(prg_len: usize, mirroring: Mirroring) -> Rom {
    let mut prg_rom = vec![0u8; prg_len];
    for (i, byte) in prg_rom.iter_mut().enumerate() {
        *byte = (i % 251) as u8;
    }
    Rom { prg_rom, chr_rom: vec![0; 0x2000], mapper: 0, mirroring, has_chr_ram: false }
}

#[test]
fn single_bank_cartridge_reads_the_same_in_both_halves() {
    let mut cpu = CPU::new();
    cpu.load_cartridge(cartridge(0x4000, Mirroring::Horizontal)).unwrap();
    for k in 0..0x4000u16 {
        let low = cpu.mem_read(0x8000 + k);
        let high = cpu.mem_read(0xC000 + k);
        assert_eq!(low, high);
        assert_eq!(low, (k as usize % 251) as u8);
    }
}

#[test]
fn single_bank_image_reads_the_same_in_both_halves() {
    let mut cpu = CPU::new();
    let rom = cartridge(0x4000, Mirroring::Horizontal);
    cpu.load_prg_rom(&rom.prg_rom).unwrap();
    for k in 0..0x4000u16 {
        assert_eq!(cpu.mem_read(0x8000 + k), cpu.mem_read(0xC000 + k));
    }
    assert_eq!(cpu.mem_read(0x7FFF), 0);
}

#[test]
fn double_bank_cartridge_fills_the_upper_half() {
    let mut cpu = CPU::new();
    cpu.load_cartridge(cartridge(0x8000, Mirroring::Vertical)).unwrap();
    assert_eq!(cpu.mem_read(0x8000), 0);
    assert_eq!(cpu.mem_read(0xC000), (0x4000usize % 251) as u8);
    assert_eq!(cpu.mem_read(0xFFFF), (0x7FFFusize % 251) as u8);
}

#[test]
fn cartridge_absorbs_stores_from_8000_on() {
    let mut cpu = CPU::new();
    cpu.load_cartridge(cartridge(0x4000, Mirroring::Horizontal)).unwrap();
    let before = cpu.mem_read(0x8005);
    cpu.mem_write(0x8005, before.wrapping_add(1));
    assert_eq!(cpu.mem_read(0x8005), before);
    assert_eq!(cpu.memory[0x8005], 0);
    // Below the cartridge the internal bytes take the store.
    cpu.mem_write(0x7FFF, 0x5A);
    assert_eq!(cpu.mem_read(0x7FFF), 0x5A);
    cpu.mem_write(0x4018, 0x6B);
    assert_eq!(cpu.mem_read(0x4018), 0x6B);
}

#[test]
fn load_cartridge_hands_mirroring_to_the_ppu() {
    let mut cpu = CPU::new();
    cpu.load_cartridge(cartridge(0x4000, Mirroring::Vertical)).unwrap();
    cpu.mem_write(0x2006, 0x28);
    cpu.mem_write(0x2006, 0x00);
    cpu.mem_write(0x2007, 0x5C);
    cpu.mem_write(0x2006, 0x20);
    cpu.mem_write(0x2006, 0x00);
    assert_eq!(cpu.mem_read(0x2007), 0x00);
    assert_eq!(cpu.mem_read(0x2007), 0x5C);
}

#[test]
fn refused_cartridge_changes_nothing() {
    let mut cpu = CPU::new();
    cpu.load_cartridge(cartridge(0x4000, Mirroring::Horizontal)).unwrap();
    let first = cpu.mem_read(0x8001);

    let mut bad = cartridge(0x2000, Mirroring::Vertical);
    bad.prg_rom[1] = 0xEE;
    assert_eq!(cpu.load_cartridge(bad), Err(CpuLoadError::InvalidPrgSize(0x2000)));
    assert_eq!(cpu.mem_read(0x8001), first);
    assert_eq!(cpu.ppu.mirroring, Mirroring::Horizontal);

    let mut other = cartridge(0x4000, Mirroring::Vertical);
    other.mapper = 4;
    assert_eq!(cpu.load_cartridge(other), Err(CpuLoadError::UnsupportedMapper(4)));
    assert_eq!(cpu.mem_read(0x8001), first);
    assert_eq!(cpu.ppu.mirroring, Mirroring::Horizontal);
}

#[test]
fn refused_prg_image_keeps_cartridge_and_memory() {
    let mut cpu = CPU::new();
    cpu.load_cartridge(cartridge(0x4000, Mirroring::Horizontal)).unwrap();
    let first = cpu.mem_read(0x8001);
    assert_eq!(cpu.load_prg_rom(&vec![0xEE; 0x1234]), Err(CpuLoadError::InvalidPrgSize(0x1234)));
    assert_eq!(cpu.mem_read(0x8001), first);
    assert!(cpu.mapper.is_some());
    assert_eq!(cpu.load_prg_rom(&[]), Err(CpuLoadError::InvalidPrgSize(0)));
}

#[test]
fn accepted_prg_image_takes_the_cartridge_out() {
    let mut cpu = CPU::new();
    cpu.load_cartridge(cartridge(0x4000, Mirroring::Horizontal)).unwrap();
    cpu.load_prg_rom(&vec![0x77; 0x8000]).unwrap();
    assert!(cpu.mapper.is_none());
    assert_eq!(cpu.mem_read(0x8001), 0x77);
    cpu.mem_write(0x8001, 0x78);
    assert_eq!(cpu.mem_read(0x8001), 0x78);
}

#[test]
fn ppu_registers_repeat_every_eight_bytes() {
    let mut cpu = CPU::new();
    cpu.ppu.status = 0xE0;
    assert_eq!(cpu.mem_read(0x3FFA), 0xE0);
    assert_eq!(cpu.ppu.status, 0x60);
    cpu.ppu.status = 0x80;
    assert_eq!(cpu.mem_read(0x200A), 0x80);
    assert_eq!(cpu.mem_read(0x2002), 0x00);
    cpu.mem_write(0x2009, 0x1E);
    assert_eq!(cpu.ppu.mask, 0x1E);
    assert_eq!(cpu.memory[0x2009], 0x00);
}

#[test]
fn apu_window_ends_at_4017() {
    let mut cpu = CPU::new();
    cpu.mem_write(0x4017, 0x12);
    cpu.mem_write(0x4018, 0x34);
    assert_eq!(cpu.mem_read(0x4017), 0x00);
    assert_eq!(cpu.mem_read(0x4018), 0x34);
    assert_eq!(cpu.memory[0x4017], 0x00);
    assert_eq!(cpu.apu.registers[0x17], 0x12);
}

#[test]
fn word_access_wraps_from_ffff_to_0000() {
    let mut cpu = CPU::new();
    cpu.mem_write_u16(0xFFFF, 0xA1B2);
    assert_eq!(cpu.memory[0xFFFF], 0xB2);
    assert_eq!(cpu.memory[0x0000], 0xA1);
    assert_eq!(cpu.mem_read_u16(0xFFFF), 0xA1B2);
}

#[test]
fn set_ppu_mirroring_reaches_the_ppu() {
    let mut cpu = CPU::new();
    assert_eq!(cpu.ppu.mirroring, Mirroring::Horizontal);
    cpu.set_ppu_mirroring(Mirroring::FourScreen);
    assert_eq!(cpu.ppu.mirroring, Mirroring::FourScreen);
}
