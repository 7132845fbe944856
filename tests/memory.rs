use nes6502::memory::Memory;

#[test]
fn test_that_byte_is_written_to_memory() {
    let mut memory = Memory {
        memory: vec![0; 0xFFFF],
    };

    memory.write_byte(5, 4);
    assert_eq!(4, memory.read_byte(5));
}

#[test]
fn single_bank_rom_image_is_placed_twice() {
    let mut prg_rom = vec![0; 16 * 1024];
    prg_rom[0] = 9;
    prg_rom[0x3FFF] = 8;
    let memory = Memory::new(prg_rom);
    assert_eq!(0x10000, memory.memory.len());
    assert_eq!(0, memory.read_byte(0x7FFF));
    assert_eq!(9, memory.read_byte(0x8000));
    assert_eq!(9, memory.read_byte(0xC000));
    assert_eq!(8, memory.read_byte(0xBFFF));
    assert_eq!(8, memory.read_byte(0xFFFF));
}
