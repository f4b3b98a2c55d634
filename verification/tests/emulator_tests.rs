use nesemulator::cartridge::RomError;
use nesemulator::controller::Button;
use nesemulator::emulator::run;
use nesemulator::input::{handle_emulator_input, InputEvent, Key, PadButton};
use nesemulator::ppu::display::Display;
use nesemulator::Emulator;

fn image(reset: u16) -> Vec<u8> {
    let mut rom = vec![0x4E, 0x45, 0x53, 0x1A, 1, 0, 0, 0, 0, 0, 0, 0, 0, 0, 0, 0];
    let mut prg = vec![0u8; 0x4000];
    prg[..3].copy_from_slice(&[0x4C, 0x00, 0x80]);
    prg[0x3FFC] = (reset & 0xFF) as u8;
    prg[0x3FFD] = (reset >> 8) as u8;
    rom.extend_from_slice(&prg);
    rom
}

fn buttons(emulator: &Emulator) -> u8 {
    emulator.cpu.bus.controller.as_ref().unwrap().button_states
}

#[test]
fn test_run_boots_the_processor() {
    let cpu = run(image(0xC123)).unwrap();
    assert_eq!(cpu.program_counter, 0xC123);
    assert_eq!(cpu.stack_pointer, 0xFD);
    assert_eq!(cpu.accumulator, 0);
    assert_eq!(cpu.skip_cycles, 0);
    assert!(cpu.bus.ppu.is_none());
    assert!(cpu.bus.controller.is_none());
    assert!(matches!(run(vec![1, 2, 3, 4]), Err(RomError::InvalidMagic)));
}

#[test]
fn test_new_machine() {
    let emulator = Emulator::new(image(0x8000)).unwrap();
    assert_eq!(emulator.cpu.program_counter, 0x8000);
    assert!(emulator.cpu.bus.ppu.is_some());
    assert_eq!(buttons(&emulator), 0);
    assert!(emulator.cpu.bus.controller.as_ref().unwrap().strobe);
    assert!(matches!(Emulator::new(Vec::new()), Err(RomError::InvalidMagic)));
    let mut mapped = image(0x8000);
    mapped[6] = 0x20;
    assert!(matches!(Emulator::new(mapped), Err(RomError::UnsupportedMapper)));
    let mut short = image(0x8000);
    short.truncate(0x2000);
    assert!(matches!(Emulator::new(short), Err(RomError::Truncated)));
}

#[test]
fn test_set_controller_state() {
    let mut emulator = Emulator::new(image(0x8000)).unwrap();
    emulator.set_controller_state(Button::A, true);
    assert_eq!(buttons(&emulator), 0b0000_0001);
    emulator.set_controller_state(Button::Right, true);
    assert_eq!(buttons(&emulator), 0b1000_0001);
    emulator.set_controller_state(Button::Start, true);
    emulator.set_controller_state(Button::A, false);
    assert_eq!(buttons(&emulator), 0b1000_1000);
    emulator.set_controller_state(Button::A, false);
    emulator.set_controller_state(Button::Right, true);
    assert_eq!(buttons(&emulator), 0b1000_1000);
    emulator.set_controller_state(Button::B, true);
    emulator.set_controller_state(Button::Select, true);
    emulator.set_controller_state(Button::Up, true);
    emulator.set_controller_state(Button::Down, true);
    emulator.set_controller_state(Button::Left, true);
    assert_eq!(buttons(&emulator), 0b1111_1110);
    emulator.set_button(Button::Left, false);
    emulator.set_button(Button::A, true);
    assert_eq!(buttons(&emulator), 0b1011_1111);
}

#[test]
fn test_keys_press_and_release_buttons() {
    let mut emulator = Emulator::new(image(0x8000)).unwrap();
    let keys = [
        (Key::Z, 0x01u8),
        (Key::X, 0x02),
        (Key::M, 0x04),
        (Key::N, 0x08),
        (Key::Up, 0x10),
        (Key::Down, 0x20),
        (Key::Left, 0x40),
        (Key::Right, 0x80),
    ];
    for (key, bit) in keys {
        handle_emulator_input(InputEvent::KeyDown { key, repeat: false }, &mut emulator);
        assert_eq!(buttons(&emulator), bit);
        handle_emulator_input(InputEvent::KeyUp { key, repeat: true }, &mut emulator);
        assert_eq!(buttons(&emulator), bit);
        handle_emulator_input(InputEvent::KeyUp { key, repeat: false }, &mut emulator);
        assert_eq!(buttons(&emulator), 0);
        handle_emulator_input(InputEvent::KeyDown { key, repeat: true }, &mut emulator);
        assert_eq!(buttons(&emulator), 0);
    }
    handle_emulator_input(InputEvent::KeyDown { key: Key::Other, repeat: false }, &mut emulator);
    handle_emulator_input(InputEvent::Other, &mut emulator);
    assert_eq!(buttons(&emulator), 0);
}

#[test]
fn test_pad_presses_and_releases_buttons() {
    let mut emulator = Emulator::new(image(0x8000)).unwrap();
    let pad = [
        (PadButton::A, 0x01u8),
        (PadButton::B, 0x02),
        (PadButton::Back, 0x04),
        (PadButton::Start, 0x08),
        (PadButton::DPadUp, 0x10),
        (PadButton::DPadDown, 0x20),
        (PadButton::DPadLeft, 0x40),
        (PadButton::DPadRight, 0x80),
    ];
    let mut held = 0u8;
    for (button, bit) in pad {
        handle_emulator_input(InputEvent::ControllerButtonDown { button }, &mut emulator);
        held |= bit;
        assert_eq!(buttons(&emulator), held);
    }
    for (button, bit) in pad {
        handle_emulator_input(InputEvent::ControllerButtonUp { button }, &mut emulator);
        held &= !bit;
        assert_eq!(buttons(&emulator), held);
    }
    handle_emulator_input(
        InputEvent::ControllerButtonDown { button: PadButton::Other },
        &mut emulator,
    );
    assert_eq!(buttons(&emulator), 0);
}

#[test]
fn test_pattern_table_viewer() {
    let mut emulator = Emulator::new(image(0x8000)).unwrap();
    let bus = &mut emulator.cpu.bus;
    let ppu = bus.ppu.as_mut().unwrap();
    // Tile 0x21 of table 0: in row 3 the pattern values 3, 2, 1, 0 from the left.
    ppu.bus.write(&mut bus.cartridge, 0x0213, 0b1010_0000);
    ppu.bus.write(&mut bus.cartridge, 0x021B, 0b1100_0000);
    // Tile 0xF0 of table 1: the last pixel of its last row.
    ppu.bus.write(&mut bus.cartridge, 0x1F07, 0b0000_0001);
    let mut first = Display::new(128, 128);
    let mut second = Display::new(128, 128);
    ppu.load_pattern_table_tiles_to_display(&bus.cartridge, 0x0000, &mut first);
    ppu.load_pattern_table_tiles_to_display(&bus.cartridge, 0x1000, &mut second);
    assert_eq!(first.get_pixel(8, 19), &[255, 255, 255]);
    assert_eq!(first.get_pixel(9, 19), &[170, 170, 170]);
    assert_eq!(first.get_pixel(10, 19), &[85, 85, 85]);
    assert_eq!(first.get_pixel(11, 19), &[0, 0, 0]);
    assert_eq!(first.get_pixel(8, 18), &[0, 0, 0]);
    assert_eq!(second.get_pixel(7, 127), &[85, 85, 85]);
    assert_eq!(second.get_pixel(6, 127), &[0, 0, 0]);
    assert_eq!(second.get_pixel(8, 19), &[0, 0, 0]);
    let lit = first.get_pixels().iter().filter(|byte| **byte != 0).count();
    assert_eq!(lit, 9);
}

#[test]
fn test_palette_viewer() {
    let mut emulator = Emulator::new(image(0x8000)).unwrap();
    let bus = &mut emulator.cpu.bus;
    let ppu = bus.ppu.as_mut().unwrap();
    ppu.bus.write(&mut bus.cartridge, 0x3F00, 0x0F);
    ppu.bus.write(&mut bus.cartridge, 0x3F01, 0x21);
    ppu.bus.write(&mut bus.cartridge, 0x3F02, 0x16);
    ppu.bus.write(&mut bus.cartridge, 0x3F03, 0x3D);
    ppu.bus.write(&mut bus.cartridge, 0x3F05, 0x00);
    let raw = ppu.get_current_palettes_raw();
    assert_eq!(raw.len(), 96);
    assert_eq!(&raw[0..12], &[0, 0, 0, 76, 154, 236, 152, 34, 32, 160, 162, 160]);
    // The next four positions show palette 0 again.
    assert_eq!(&raw[12..24], &raw[0..12]);
    // From position 8 on palette 1: its first entry is the backdrop.
    assert_eq!(&raw[24..30], &[0, 0, 0, 84, 84, 84]);
}
