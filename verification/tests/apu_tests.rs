use res_core::apu::Apu;

#[test]
fn test_apu_write_and_read_paths_are_stubbed() {
    let mut apu = Apu::new();

    apu.write_register(0x4000, 0xFF);
    apu.write_register(0x4017, 0x80);

    assert_eq!(apu.read_register(0x4000), 0x00);
    assert_eq!(apu.read_register(0x4017), 0x00);
}

#[test]
fn test_apu_status_register_readback_is_available_in_stub() {
    let mut apu = Apu::new();

    apu.write_register(0x4015, 0x1F);

    assert_eq!(apu.read_register(0x4015), 0x1F);
}
