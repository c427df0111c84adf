use res_core::mapper::Mapper;
use res_core::mapper::NromMapper;
use res_core::mapper::CHR_BANK_SIZE;

#[test]
fn test_nrom_128_cpu_mirrors_upper_bank() {
    let mut prg = vec![0u8; 0x4000];
    prg[0] = 0x11;
    prg[0x3FFF] = 0x22;
    let mapper = NromMapper::new(prg, vec![0; CHR_BANK_SIZE], false).unwrap();

    assert_eq!(mapper.cpu_read(0x8000), Some(0x11));
    assert_eq!(mapper.cpu_read(0xBFFF), Some(0x22));
    assert_eq!(mapper.cpu_read(0xC000), Some(0x11));
    assert_eq!(mapper.cpu_read(0xFFFF), Some(0x22));
}

#[test]
fn test_nrom_256_cpu_uses_full_32kb_prg() {
    let mut prg = vec![0u8; 0x8000];
    prg[0] = 0x33;
    prg[0x7FFF] = 0x44;
    let mapper = NromMapper::new(prg, vec![0; CHR_BANK_SIZE], false).unwrap();

    assert_eq!(mapper.cpu_read(0x8000), Some(0x33));
    assert_eq!(mapper.cpu_read(0xFFFF), Some(0x44));
}

#[test]
fn test_nrom_chr_rom_ignores_writes() {
    let mapper = NromMapper::new(vec![0; 0x4000], vec![0xAB; CHR_BANK_SIZE], false).unwrap();
    let mut mapper = mapper;

    assert_eq!(mapper.ppu_read(0x0010), Some(0xAB));
    assert!(mapper.ppu_write(0x0010, 0xCD));
    assert_eq!(mapper.ppu_read(0x0010), Some(0xAB));
}

#[test]
fn test_nrom_chr_ram_stores_written_values() {
    let mut mapper = NromMapper::new(vec![0; 0x4000], vec![], true).unwrap();

    assert_eq!(mapper.ppu_read(0x0010), Some(0x00));
    assert!(mapper.ppu_write(0x0010, 0xCD));
    assert_eq!(mapper.ppu_read(0x0010), Some(0xCD));
}
