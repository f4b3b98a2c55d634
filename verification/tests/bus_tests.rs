use nesemulator::cartridge::{Cartridge, NametableMirroring, RomError};
use nesemulator::controller::Button;
use nesemulator::cpu::ram::Ram;
use nesemulator::ppu::bus::Bus;
use nesemulator::Emulator;

fn image(prg_pages: u8, chr_pages: u8, flags6: u8, flags7: u8) -> Vec<u8> {
    let mut rom = vec![0x4E, 0x45, 0x53, 0x1A, prg_pages, chr_pages, flags6, flags7];
    rom.extend_from_slice(&[0u8; 8]);
    for page in 0..prg_pages as usize {
        for i in 0..0x4000usize {
            rom.push(((i & 0xFF) as u8) ^ (page as u8) ^ ((i >> 8) as u8));
        }
    }
    for page in 0..chr_pages as usize {
        for i in 0..0x2000usize {
            rom.push(((i & 0xFF) as u8).wrapping_add(page as u8 + 1));
        }
    }
    rom
}

fn error_of(rom: Vec<u8>) -> Option<RomError> {
    match Cartridge::new_from_bytes(rom) {
        Ok(_) => None,
        Err(error) => Some(error),
    }
}

#[test]
fn test_rom_with_wrong_magic_is_turned_down() {
    let mut rom = image(1, 1, 0, 0);
    rom[3] = 0x1B;
    assert_eq!(error_of(rom), Some(RomError::InvalidMagic));
    assert_eq!(error_of(vec![0x4E, 0x45, 0x53]), Some(RomError::InvalidMagic));
    assert_eq!(error_of(Vec::new()), Some(RomError::InvalidMagic));
}

#[test]
fn test_rom_with_mapper_is_turned_down() {
    assert_eq!(error_of(image(1, 1, 0x10, 0)), Some(RomError::UnsupportedMapper));
    assert_eq!(error_of(image(1, 1, 0x00, 0x40)), Some(RomError::UnsupportedMapper));
    // The low nibble of byte 6 holds flags, no mapper bits.
    assert_eq!(error_of(image(1, 1, 0x01, 0)), None);
}

#[test]
fn test_truncated_rom_is_turned_down() {
    let mut rom = image(1, 1, 0, 0);
    rom.pop();
    assert_eq!(error_of(rom), Some(RomError::Truncated));
    assert_eq!(error_of(vec![0x4E, 0x45, 0x53, 0x1A, 1, 1]), Some(RomError::Truncated));
    assert_eq!(error_of(image(1, 1, 0, 0)), None);
    assert!(Emulator::new(vec![0x4E, 0x45, 0x53, 0x1A, 1, 1]).is_err());
}

#[test]
fn test_cartridge_banks() {
    let cartridge = Cartridge::new_from_bytes(image(2, 1, 1, 0x08)).unwrap();
    assert_eq!(cartridge.prg_rom_pages, 2);
    assert_eq!(cartridge.chr_rom_pages, 1);
    assert_eq!(cartridge.prg_rom.len(), 0x8000);
    assert_eq!(cartridge.chr_rom.len(), 0x2000);
    assert!(cartridge.ines_format);
    assert!(cartridge.nes20_format);
    assert_eq!(cartridge.mapper_number, 0);
    assert_eq!(cartridge.prg_rom[0x0123], 0x23 ^ 0x01);
    assert_eq!(cartridge.prg_rom[0x4123], 0x23 ^ 0x01 ^ 0x01);
    assert_eq!(cartridge.chr_rom[0x0010], 0x11);
    assert_eq!(cartridge.read_using_cpu_bus_address(0x8123), 0x23 ^ 0x01);
    assert_eq!(cartridge.read_using_cpu_bus_address(0xC123), 0x23 ^ 0x01 ^ 0x01);
    assert_eq!(cartridge.read_using_cpu_bus_address(0x6000), 0);
    assert_eq!(cartridge.read_using_ppu_bus_address(0x0010), 0x11);
}

#[test]
fn test_single_program_bank_is_mirrored() {
    let cartridge = Cartridge::new_from_bytes(image(1, 1, 0, 0)).unwrap();
    assert!(!cartridge.nes20_format);
    assert_eq!(cartridge.read_using_cpu_bus_address(0x8123), 0x23 ^ 0x01);
    assert_eq!(cartridge.read_using_cpu_bus_address(0xC123), 0x23 ^ 0x01);
    assert_eq!(cartridge.read_using_cpu_bus_address(0xFFFF), 0xFF ^ 0x3F);
}

#[test]
fn test_empty_cartridge() {
    let cartridge = Cartridge::new();
    assert!(cartridge.mem.is_empty());
    assert!(cartridge.prg_rom.is_empty());
    assert_eq!(cartridge.chr_ram.len(), 0x2000);
    assert!(!cartridge.ines_format);
}

#[test]
fn test_character_ram_takes_writes_and_rom_does_not() {
    let mut with_ram = Cartridge::new_from_bytes(image(1, 0, 0, 0)).unwrap();
    assert_eq!(with_ram.read_from_pattern_table(0x1234), 0);
    with_ram.write_to_pattern_table(0x1234, 0xAB);
    assert_eq!(with_ram.read_from_pattern_table(0x1234), 0xAB);
    let mut with_rom = Cartridge::new_from_bytes(image(1, 1, 0, 0)).unwrap();
    let before = with_rom.read_from_pattern_table(0x1234);
    with_rom.write_to_pattern_table(0x1234, before.wrapping_add(1));
    assert_eq!(with_rom.read_from_pattern_table(0x1234), before);
    with_rom.write(0x8000, 0x55);
    assert_eq!(with_rom.read_using_cpu_bus_address(0x8000), 0x00);
}

#[test]
fn test_vertical_mirroring() {
    let cartridge = Cartridge::new_from_bytes(image(1, 1, 1, 0)).unwrap();
    let mut vram = Ram::new(0x0800);
    cartridge.write_to_nametable(0x2005, &mut vram, 0x11);
    cartridge.write_to_nametable(0x2405, &mut vram, 0x22);
    assert_eq!(cartridge.read_from_nametable(0x2005, &vram), 0x11);
    assert_eq!(cartridge.read_from_nametable(0x2805, &vram), 0x11);
    assert_eq!(cartridge.read_from_nametable(0x2405, &vram), 0x22);
    assert_eq!(cartridge.read_from_nametable(0x2C05, &vram), 0x22);
    assert_eq!(vram.read(0x0005), 0x11);
    assert_eq!(vram.read(0x0405), 0x22);
}

#[test]
fn test_horizontal_mirroring() {
    let cartridge = Cartridge::new_from_bytes(image(1, 1, 0, 0)).unwrap();
    let mut vram = Ram::new(0x0800);
    cartridge.write_to_nametable(0x2005, &mut vram, 0x11);
    cartridge.write_to_nametable(0x2805, &mut vram, 0x22);
    assert_eq!(cartridge.read_from_nametable(0x2005, &vram), 0x11);
    assert_eq!(cartridge.read_from_nametable(0x2405, &vram), 0x11);
    assert_eq!(cartridge.read_from_nametable(0x2805, &vram), 0x22);
    assert_eq!(cartridge.read_from_nametable(0x2C05, &vram), 0x22);
    assert_eq!(vram.read(0x0005), 0x11);
    assert_eq!(vram.read(0x0405), 0x22);
}

#[test]
fn test_mirroring_values_differ() {
    assert!(NametableMirroring::Vertical != NametableMirroring::Horizontal);
}

#[test]
fn test_palette_mirrors() {
    let mut cartridge = Cartridge::new_from_bytes(image(1, 0, 0, 0)).unwrap();
    let mut bus = Bus::new();
    for (i, low) in [0x00u16, 0x04, 0x08, 0x0C].iter().enumerate() {
        bus.write(&mut cartridge, 0x3F00 + low, 0x10 + i as u8);
        assert_eq!(bus.read(&cartridge, 0x3F10 + low), 0x10 + i as u8);
        assert_eq!(bus.read(&cartridge, 0x3F00 + low), 0x10 + i as u8);
        bus.write(&mut cartridge, 0x3F10 + low, 0x20 + i as u8);
        assert_eq!(bus.read(&cartridge, 0x3F00 + low), 0x20 + i as u8);
        assert_eq!(bus.read(&cartridge, 0x3F10 + low), 0x20 + i as u8);
    }
    // The other entries of the sprite palettes are cells of their own.
    bus.write(&mut cartridge, 0x3F01, 0x01);
    bus.write(&mut cartridge, 0x3F11, 0x02);
    assert_eq!(bus.read(&cartridge, 0x3F01), 0x01);
    assert_eq!(bus.read(&cartridge, 0x3F11), 0x02);
    // The palette repeats every 32 bytes.
    assert_eq!(bus.read(&cartridge, 0x3F31), 0x02);
    assert_eq!(bus.read(&cartridge, 0x3FE1), 0x01);
}

#[test]
fn test_backdrop_shows_through_transparent_entries() {
    let mut cartridge = Cartridge::new_from_bytes(image(1, 0, 0, 0)).unwrap();
    let mut bus = Bus::new();
    bus.write(&mut cartridge, 0x3F00, 0x0F);
    bus.write(&mut cartridge, 0x3F04, 0x21);
    bus.write(&mut cartridge, 0x3F05, 0x22);
    assert_eq!(bus.read_color_number(0x00), 0x0F);
    assert_eq!(bus.read_color_number(0x04), 0x0F);
    assert_eq!(bus.read_color_number(0x14), 0x0F);
    assert_eq!(bus.read_color_number(0x05), 0x22);
    assert_eq!(bus.read(&cartridge, 0x3F04), 0x21);
}

#[test]
fn test_picture_bus_windows() {
    let mut cartridge = Cartridge::new_from_bytes(image(1, 0, 1, 0)).unwrap();
    let mut bus = Bus::new();
    bus.write(&mut cartridge, 0x0123, 0x77);
    assert_eq!(bus.read(&cartridge, 0x0123), 0x77);
    assert_eq!(cartridge.read_from_pattern_table(0x0123), 0x77);
    bus.write(&mut cartridge, 0x2456, 0x88);
    assert_eq!(bus.read(&cartridge, 0x2456), 0x88);
    assert_eq!(bus.read(&cartridge, 0x3456), 0x88);
    assert_eq!(bus.read_from_vram(0x0456), 0x88);
    bus.write(&mut cartridge, 0x3007, 0x99);
    assert_eq!(bus.read(&cartridge, 0x2007), 0x99);
    bus.write_to_vram(0x0001, 0x42);
    assert_eq!(bus.read(&cartridge, 0x2001), 0x42);
}

#[test]
fn test_work_ram_mirrors() {
    let mut emulator = Emulator::new(image(1, 1, 0, 0)).unwrap();
    let bus = &mut emulator.cpu.bus;
    bus.write(0x0123, 0xAB);
    assert_eq!(bus.read(0x0123), 0xAB);
    assert_eq!(bus.read(0x0923), 0xAB);
    assert_eq!(bus.read(0x1123), 0xAB);
    assert_eq!(bus.read(0x1923), 0xAB);
    bus.write(0x1FFF, 0xCD);
    assert_eq!(bus.read(0x07FF), 0xCD);
    assert_eq!(bus.read(0x0FFF), 0xCD);
}

#[test]
fn test_quiet_addresses() {
    let mut emulator = Emulator::new(image(1, 1, 0, 0)).unwrap();
    let bus = &mut emulator.cpu.bus;
    for address in [0x4000u16, 0x4013, 0x4015, 0x4018, 0x401F, 0x4020, 0x5FFF, 0x6000, 0x7FFF] {
        bus.write(address, 0xFF);
        assert_eq!(bus.read(address), 0);
    }
    assert_eq!(bus.read(0x4017), 1);
    assert_eq!(bus.read(0x2006), 0);
    let before = bus.read(0x8000);
    bus.write(0x8000, before.wrapping_add(1));
    assert_eq!(bus.read(0x8000), before);
}

#[test]
fn test_controller_shift() {
    let mut emulator = Emulator::new(image(1, 1, 0, 0)).unwrap();
    emulator.set_controller_state(Button::Left, true);
    emulator.set_controller_state(Button::Up, true);
    emulator.set_controller_state(Button::Select, true);
    emulator.cpu.bus.write(0x4016, 1);
    emulator.cpu.bus.write(0x4016, 0);
    let expected = [0u8, 0, 1, 0, 1, 0, 1, 0, 1, 1];
    for bit in expected {
        assert_eq!(emulator.cpu.bus.read(0x4016), bit);
    }
}

#[test]
fn test_controller_strobe_high_returns_button_a() {
    let mut emulator = Emulator::new(image(1, 1, 0, 0)).unwrap();
    emulator.set_controller_state(Button::A, true);
    emulator.set_controller_state(Button::B, false);
    emulator.cpu.bus.write(0x4016, 1);
    for _ in 0..20 {
        assert_eq!(emulator.cpu.bus.read(0x4016), 1);
    }
    emulator.set_controller_state(Button::A, false);
    emulator.set_controller_state(Button::B, true);
    for _ in 0..20 {
        assert_eq!(emulator.cpu.bus.read(0x4016), 0);
    }
}

#[test]
fn test_controller_port_without_controller() {
    let mut emulator = Emulator::new(image(1, 1, 0, 0)).unwrap();
    emulator.cpu.bus.controller = None;
    emulator.set_controller_state(Button::A, true);
    assert_eq!(emulator.cpu.bus.read(0x4016), 1);
}

#[test]
fn test_picture_registers_repeat_every_eight_bytes() {
    let mut emulator = Emulator::new(image(1, 1, 0, 0)).unwrap();
    emulator.cpu.bus.write(0x2001, 0x1E);
    assert_eq!(emulator.cpu.bus.read(0x2001), 0x1E);
    assert_eq!(emulator.cpu.bus.read(0x2009), 0x1E);
    assert_eq!(emulator.cpu.bus.read(0x3FF9), 0x1E);
    emulator.cpu.bus.write(0x3FFB, 0x44);
    assert_eq!(emulator.cpu.bus.read(0x2003), 0x44);
    // A write to the status register changes nothing.
    let status = emulator.cpu.bus.ppu.as_ref().unwrap().ppustatus;
    emulator.cpu.bus.write(0x2002, !status);
    assert_eq!(emulator.cpu.bus.ppu.as_ref().unwrap().ppustatus, status);
}

#[test]
fn test_sprite_data_register() {
    let mut emulator = Emulator::new(image(1, 1, 0, 0)).unwrap();
    emulator.cpu.bus.write(0x2003, 0xFE);
    emulator.cpu.bus.write(0x2004, 0x11);
    emulator.cpu.bus.write(0x2004, 0x22);
    emulator.cpu.bus.write(0x2004, 0x33);
    assert_eq!(emulator.cpu.bus.read(0x2003), 0x01);
    let ppu = emulator.cpu.bus.ppu.as_ref().unwrap();
    assert_eq!(ppu.oam_primary[0xFE], 0x11);
    assert_eq!(ppu.oam_primary[0xFF], 0x22);
    assert_eq!(ppu.oam_primary[0x00], 0x33);
    assert_eq!(ppu.oamdata, 0x33);
    emulator.cpu.bus.write(0x2003, 0xFF);
    assert_eq!(emulator.cpu.bus.read(0x2004), 0x22);
    assert_eq!(emulator.cpu.bus.read(0x2003), 0xFF);
}
