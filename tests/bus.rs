use nes6502::bus::Bus;
use nes6502::error::EmuError;

#[test]
fn test_that_system_panics_if_write_address_is_too_large() {
    let mut bus = Bus::new(0, vec![0; 16 * 1024]).unwrap();
    assert_eq!(Err(EmuError::ReadOnlyViolation(0x8000)), bus.write(0x8000, 5));
}

#[test]
fn test_that_writing_to_internal_ram_works_correctly() {
    let mut bus = Bus::new(0, vec![0; 16 * 1024]).unwrap();
    bus.write(0x0000, 1).unwrap();
    assert_eq!(1, bus.ram[0]);

    bus.write(0x0801, 2).unwrap();
    assert_eq!(2, bus.ram[1]);

    bus.write(0x1002, 3).unwrap();
    assert_eq!(3, bus.ram[2]);

    bus.write(0x1803, 4).unwrap();
    assert_eq!(4, bus.ram[3]);
}

#[test]
fn test_that_values_from_internal_ram_are_read_correctly() {
    let mut bus = Bus::new(0, vec![0; 16 * 1024]).unwrap();
    bus.ram[0] = 1;
    bus.ram[1] = 2;
    bus.ram[2] = 3;
    bus.ram[3] = 4;
    assert_eq!(Ok(1), bus.read(0));
    assert_eq!(Ok(2), bus.read(0x0801));
    assert_eq!(Ok(3), bus.read(0x1002));
    assert_eq!(Ok(4), bus.read(0x1803));
}

#[test]
fn test_that_values_from_prg_rom_are_read_correctly() {
    let mut prg_rom = vec![0; 16 * 1024];
    prg_rom[0] = 1;
    prg_rom[1] = 2;
    prg_rom[2] = 3;
    prg_rom[3] = 4;
    let bus = Bus::new(0, prg_rom).unwrap();
    assert_eq!(Ok(1), bus.read(0x8000));
    assert_eq!(Ok(2), bus.read(0xC001));
}

#[test]
fn ram_mirror_round_trip_through_every_window() {
    let windows = [0x0000usize, 0x0800, 0x1000, 0x1800];
    for k in [0usize, 1, 0x3FF, 0x7FF] {
        for (i, w1) in windows.iter().enumerate() {
            let mut bus = Bus::new(0, vec![0; 16 * 1024]).unwrap();
            let value = (k as u8).wrapping_add(i as u8 + 1);
            assert_eq!(Ok(()), bus.write(w1 + k, value));
            for w2 in windows.iter() {
                assert_eq!(Ok(value), bus.read(w2 + k));
            }
        }
    }
}

#[test]
fn rom_write_is_rejected_and_rom_unchanged() {
    let mut prg_rom = vec![0; 16 * 1024];
    prg_rom[0] = 0xAB;
    let mut bus = Bus::new(0, prg_rom).unwrap();
    for address in [0x8000usize, 0xC000, 0xFFFF] {
        assert_eq!(Err(EmuError::ReadOnlyViolation(address)), bus.write(address, 7));
    }
    assert_eq!(Ok(0xAB), bus.read(0x8000));
    assert_eq!(Ok(0xAB), bus.read(0xC000));
    assert_eq!(vec![0u8; 0x0800], bus.ram);
}

#[test]
fn single_bank_rom_is_mirrored_into_both_banks() {
    let mut prg_rom = vec![0; 16 * 1024];
    prg_rom[0] = 0x5A;
    prg_rom[0x3FFF] = 0x77;
    let bus = Bus::new(0, prg_rom).unwrap();
    assert_eq!(Ok(0x5A), bus.read(0x8000));
    assert_eq!(Ok(0x5A), bus.read(0xC000));
    assert_eq!(Ok(0x77), bus.read(0xBFFF));
    assert_eq!(Ok(0x77), bus.read(0xFFFF));
}

#[test]
fn two_bank_rom_is_not_mirrored() {
    let mut prg_rom = vec![0; 32 * 1024];
    prg_rom[0] = 1;
    prg_rom[0x4000] = 2;
    let bus = Bus::new(0, prg_rom).unwrap();
    assert_eq!(Ok(1), bus.read(0x8000));
    assert_eq!(Ok(2), bus.read(0xC000));
}

#[test]
fn unsupported_mapper_is_refused() {
    assert!(matches!(Bus::new(1, vec![0; 16 * 1024]), Err(EmuError::UnsupportedMapper(1))));
}

#[test]
fn unsupported_mapper_is_refused_whatever_the_rom_size() {
    assert!(matches!(Bus::new(1, vec![0; 64 * 1024]), Err(EmuError::UnsupportedMapper(1))));
    assert!(matches!(Bus::new(4, vec![0; 48 * 1024]), Err(EmuError::UnsupportedMapper(4))));
}

#[test]
fn unmapped_addresses_are_refused() {
    let mut bus = Bus::new(0, vec![0; 16 * 1024]).unwrap();
    assert_eq!(Err(EmuError::UnmappedAddress(0x2000)), bus.read(0x2000));
    assert_eq!(Err(EmuError::UnmappedAddress(0x7FFF)), bus.read(0x7FFF));
    assert_eq!(Err(EmuError::UnmappedAddress(0x10000)), bus.read(0x10000));
    assert_eq!(Err(EmuError::UnmappedAddress(0x4020)), bus.write(0x4020, 1));
    assert_eq!(vec![0u8; 0x0800], bus.ram);
}
