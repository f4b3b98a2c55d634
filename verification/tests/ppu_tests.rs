use nesemulator::ppu::display::{Color, Display};
use nesemulator::ppu::palette::{greyscale, Palette};
use nesemulator::ppu::reverse_bits;
use nesemulator::Emulator;

/// A ROM image with one program bank that holds an endless loop, and with
/// character RAM.
fn image(flags6: u8) -> Vec<u8> {
    let mut rom = vec![0x4E, 0x45, 0x53, 0x1A, 1, 0, flags6, 0, 0, 0, 0, 0, 0, 0, 0, 0];
    let mut prg = vec![0u8; 0x4000];
    prg[..3].copy_from_slice(&[0x4C, 0x00, 0x80]);
    prg[0x3FFC] = 0x00;
    prg[0x3FFD] = 0x80;
    rom.extend_from_slice(&prg);
    rom
}

fn machine() -> Emulator {
    Emulator::new(image(0)).unwrap()
}

/// Writes a byte on the bus of the picture unit.
fn poke(emulator: &mut Emulator, address: u16, value: u8) {
    let bus = &mut emulator.cpu.bus;
    let ppu = bus.ppu.as_mut().unwrap();
    ppu.bus.write(&mut bus.cartridge, address, value);
}

fn peek(emulator: &Emulator, address: u16) -> u8 {
    let bus = &emulator.cpu.bus;
    bus.ppu.as_ref().unwrap().bus.read(&bus.cartridge, address)
}

fn pixel(emulator: &Emulator, x: usize, y: usize) -> (u8, u8, u8) {
    let pixels = emulator.frame_pixels();
    let at = (y * 256 + x) * 3;
    (pixels[at], pixels[at + 1], pixels[at + 2])
}

/// Fills tile `tile` of pattern table 0 with rows of the two plane bytes.
fn tile(emulator: &mut Emulator, tile: u16, low: u8, high: u8) {
    for row in 0..8 {
        poke(emulator, tile * 16 + row, low);
        poke(emulator, tile * 16 + 8 + row, high);
    }
}

const BLACK: (u8, u8, u8) = (0, 0, 0);
const BLUE: (u8, u8, u8) = (76, 154, 236);
const RED: (u8, u8, u8) = (152, 34, 32);

/// A picture of tile 1 (color 1 all over) but for tile 2 (its left half in
/// color 1) in column 2 of row 0, in palette 0: black backdrop, blue color 1.
fn background(emulator: &mut Emulator) {
    tile(emulator, 1, 0xFF, 0x00);
    tile(emulator, 2, 0xF0, 0x00);
    tile(emulator, 3, 0xFF, 0xFF);
    for cell in 0..960u16 {
        poke(emulator, 0x2000 + cell, 1);
    }
    poke(emulator, 0x2002, 2);
    poke(emulator, 0x3F00, 0x0F);
    poke(emulator, 0x3F01, 0x21);
    poke(emulator, 0x3F13, 0x16);
    let ppu = emulator.cpu.bus.ppu.as_mut().unwrap();
    for sprite in 0..64 {
        ppu.oam_primary[sprite * 4] = 0xF0;
    }
}

#[test]
fn test_display_pixels() {
    let mut display = Display::new(4, 3);
    assert_eq!(display.width, 4);
    assert_eq!(display.height, 3);
    assert_eq!(display.get_pixels().len(), 36);
    assert!(display.get_pixels().iter().all(|byte| *byte == 0));
    display.set_pixel(1, 2, Color::new_rgb(1, 2, 3));
    display.set_pixel(3, 0, Color::new_rgb(4, 5, 6));
    assert_eq!(display.get_pixel(1, 2), &[1, 2, 3]);
    assert_eq!(display.get_pixel(3, 0), &[4, 5, 6]);
    assert_eq!(display.get_pixel(0, 0), &[0, 0, 0]);
    assert_eq!(&display.get_pixels()[27..30], &[1, 2, 3]);
    assert_eq!(&display.get_pixels()[9..12], &[4, 5, 6]);
    let picture = Display::default();
    assert_eq!(picture.width, 256);
    assert_eq!(picture.height, 240);
    assert_eq!(picture.get_pixels().len(), 256 * 240 * 3);
}

#[test]
fn test_color_channels() {
    assert!(Color::new() == Color { r: 0, g: 0, b: 0 });
    let color = Color::new_rgb(10, 20, 30);
    assert!(color == Color { r: 10, g: 20, b: 30 });
    let mut cursor = color.into_iter();
    assert_eq!(cursor.next(), Some(10));
    assert_eq!(cursor.next(), Some(20));
    assert_eq!(cursor.next(), Some(30));
    assert_eq!(cursor.next(), None);
    assert_eq!(cursor.next(), None);
}

#[test]
fn test_system_palette() {
    let palette = Palette::new();
    assert!(palette.get_color(0x00) == Color::new_rgb(84, 84, 84));
    assert!(palette.get_color(0x0F) == Color::new_rgb(0, 0, 0));
    assert!(palette.get_color(0x16) == Color::new_rgb(152, 34, 32));
    assert!(palette.get_color(0x21) == Color::new_rgb(76, 154, 236));
    assert!(palette.get_color(0x3D) == Color::new_rgb(160, 162, 160));
    assert!(palette.get_color(0x3F) == Color::new_rgb(0, 0, 0));
    assert_eq!(palette.colors.len(), 64);
    assert!(greyscale(0) == Color::new_rgb(0, 0, 0));
    assert!(greyscale(1) == Color::new_rgb(85, 85, 85));
    assert!(greyscale(2) == Color::new_rgb(170, 170, 170));
    assert!(greyscale(3) == Color::new_rgb(255, 255, 255));
}

#[test]
fn test_reverse_bits() {
    assert_eq!(reverse_bits(0x01), 0x80);
    assert_eq!(reverse_bits(0xF0), 0x0F);
    assert_eq!(reverse_bits(0b1010_0110), 0b0110_0101);
    for byte in 0..=255u8 {
        assert_eq!(reverse_bits(byte), byte.reverse_bits());
    }
}

#[test]
fn test_power_on_state() {
    let emulator = machine();
    let ppu = emulator.cpu.bus.ppu.as_ref().unwrap();
    assert_eq!((ppu.x, ppu.y), (0, 0));
    assert_eq!(ppu.ppustatus, 0xA0);
    assert_eq!(ppu.ppuctrl, 0);
    assert_eq!(ppu.ppumask, 0);
    assert!(!ppu.n_w);
    assert!(ppu.oam_primary.iter().all(|byte| *byte == 0));
    assert!(emulator.frame_pixels().iter().all(|byte| *byte == 0));
    assert_eq!(emulator.frame_pixels().len(), 256 * 240 * 3);
}

#[test]
fn test_dot_stays_inside_the_frame() {
    let mut emulator = machine();
    let bus = &mut emulator.cpu.bus;
    let ppu = bus.ppu.as_mut().unwrap();
    let mut expected = (0u16, 0u16);
    for _ in 0..(341 * 262 + 700) {
        ppu.step(&bus.cartridge);
        expected.0 += 1;
        if expected.0 == 341 {
            expected.0 = 0;
            expected.1 += 1;
            if expected.1 == 262 {
                expected.1 = 0;
            }
        }
        assert!(ppu.x < 341 && ppu.y < 262);
        assert_eq!((ppu.x, ppu.y), expected);
    }
    assert_eq!((ppu.x, ppu.y), (18, 2));
}

#[test]
fn test_step_runs_three_dots() {
    let mut emulator = machine();
    emulator.step();
    let ppu = emulator.cpu.bus.ppu.as_ref().unwrap();
    assert_eq!((ppu.x, ppu.y), (3, 0));
    assert_eq!(emulator.cpu.cycle, 8);
    for _ in 0..113 {
        emulator.step();
    }
    let ppu = emulator.cpu.bus.ppu.as_ref().unwrap();
    assert_eq!((ppu.x, ppu.y), (1, 1));
}

#[test]
fn test_step_frame_runs_one_frame() {
    let mut emulator = machine();
    emulator.step_frame();
    let ppu = emulator.cpu.bus.ppu.as_ref().unwrap();
    assert_eq!((ppu.x, ppu.y), (0, 240));
    assert_eq!(emulator.cpu.cycle, 7 + 240 * 341 / 3);
    let mut dot = 0u64;
    for _ in 0..6 {
        let cycle = emulator.cpu.cycle;
        emulator.step_frame();
        let ppu = emulator.cpu.bus.ppu.as_ref().unwrap();
        assert_eq!(ppu.y, 240);
        assert!(ppu.x <= 2);
        let steps = emulator.cpu.cycle - cycle;
        assert_eq!(3 * steps + dot, 341 * 262 + ppu.x as u64);
        dot = ppu.x as u64;
    }
}

#[test]
fn test_vblank_flag() {
    let mut emulator = machine();
    // The flag is up at power on; a read takes it down.
    assert_eq!(emulator.cpu.bus.read(0x2002) & 0x80, 0x80);
    assert_eq!(emulator.cpu.bus.read(0x2002) & 0x80, 0x00);
    loop {
        emulator.step();
        let ppu = emulator.cpu.bus.ppu.as_ref().unwrap();
        if ppu.y == 241 && ppu.x >= 2 {
            break;
        }
        assert_eq!(ppu.ppustatus & 0x80, 0);
    }
    assert_eq!(emulator.cpu.bus.read(0x2002) & 0x80, 0x80);
    assert_eq!(emulator.cpu.bus.read(0x2002) & 0x80, 0x00);
}

#[test]
fn test_vblank_flag_ends_before_the_next_frame() {
    let mut emulator = machine();
    {
        let ppu = emulator.cpu.bus.ppu.as_mut().unwrap();
        ppu.ppustatus = 0xE0;
        ppu.x = 0;
        ppu.y = 261;
    }
    emulator.step();
    let ppu = emulator.cpu.bus.ppu.as_ref().unwrap();
    assert_eq!((ppu.x, ppu.y), (3, 261));
    assert_eq!(ppu.ppustatus, 0x00);
}

#[test]
fn test_two_status_reads() {
    let mut emulator = machine();
    emulator.cpu.bus.write(0x2006, 0x21);
    assert!(emulator.cpu.bus.ppu.as_ref().unwrap().n_w);
    let first = emulator.cpu.bus.read(0x2002);
    let second = emulator.cpu.bus.read(0x2002);
    assert_eq!(first, 0xA0);
    assert_eq!(second, 0x20);
    let ppu = emulator.cpu.bus.ppu.as_ref().unwrap();
    assert!(!ppu.n_w);
    assert_eq!(ppu.ppustatus & 0x80, 0);
}

#[test]
fn test_address_and_data_registers() {
    let mut emulator = machine();
    poke(&mut emulator, 0x2345, 0x11);
    poke(&mut emulator, 0x2346, 0x22);
    poke(&mut emulator, 0x2365, 0x33);
    emulator.cpu.bus.write(0x2006, 0x23);
    emulator.cpu.bus.write(0x2006, 0x45);
    // The first read returns what the buffer held; the next ones the bytes.
    assert_eq!(emulator.cpu.bus.read(0x2007), 0x00);
    assert_eq!(emulator.cpu.bus.read(0x2007), 0x11);
    assert_eq!(emulator.cpu.bus.read(0x2007), 0x22);
    // With bit 2 of the control register the address moves on by 32.
    emulator.cpu.bus.write(0x2000, 0x04);
    emulator.cpu.bus.write(0x2006, 0x23);
    emulator.cpu.bus.write(0x2006, 0x45);
    emulator.cpu.bus.read(0x2007);
    assert_eq!(emulator.cpu.bus.read(0x2007), 0x11);
    assert_eq!(emulator.cpu.bus.read(0x2007), 0x33);
    assert_eq!(emulator.cpu.bus.ppu.as_ref().unwrap().n_v, 0x2345 + 3 * 32);
}

#[test]
fn test_data_register_writes() {
    let mut emulator = machine();
    emulator.cpu.bus.write(0x2006, 0x20);
    emulator.cpu.bus.write(0x2006, 0x10);
    emulator.cpu.bus.write(0x2007, 0xAA);
    emulator.cpu.bus.write(0x2007, 0xBB);
    assert_eq!(peek(&emulator, 0x2010), 0xAA);
    assert_eq!(peek(&emulator, 0x2011), 0xBB);
    // Character RAM takes writes through the data register too.
    emulator.cpu.bus.write(0x2006, 0x01);
    emulator.cpu.bus.write(0x2006, 0x00);
    emulator.cpu.bus.write(0x2007, 0xCC);
    assert_eq!(peek(&emulator, 0x0100), 0xCC);
    assert_eq!(emulator.cpu.bus.cartridge.chr_ram[0x0100], 0xCC);
}

#[test]
fn test_palette_reads_are_not_buffered() {
    let mut emulator = machine();
    poke(&mut emulator, 0x3F01, 0x2A);
    poke(&mut emulator, 0x2F01, 0x77);
    emulator.cpu.bus.write(0x2006, 0x3F);
    emulator.cpu.bus.write(0x2006, 0x01);
    assert_eq!(emulator.cpu.bus.read(0x2007), 0x2A);
    // The buffer took the name table byte that lies 0x1000 below.
    assert_eq!(emulator.cpu.bus.ppu.as_ref().unwrap().ppudata_buffer, 0x77);
}

#[test]
fn test_address_register_clears_bit_14() {
    let mut emulator = machine();
    emulator.cpu.bus.write(0x2006, 0xFF);
    emulator.cpu.bus.write(0x2006, 0xFF);
    let ppu = emulator.cpu.bus.ppu.as_ref().unwrap();
    assert_eq!(ppu.n_t, 0x3FFF);
    assert_eq!(ppu.n_v, 0x3FFF);
    assert!(!ppu.n_w);
}

#[test]
fn test_scroll_and_control_registers() {
    let mut emulator = machine();
    emulator.cpu.bus.write(0x2000, 0x03);
    assert_eq!(emulator.cpu.bus.ppu.as_ref().unwrap().n_t, 0x0C00);
    emulator.cpu.bus.write(0x2005, 0x7D);
    {
        let ppu = emulator.cpu.bus.ppu.as_ref().unwrap();
        assert_eq!(ppu.n_t, 0x0C0F);
        assert_eq!(ppu.n_x, 5);
        assert!(ppu.n_w);
    }
    emulator.cpu.bus.write(0x2005, 0x5E);
    {
        let ppu = emulator.cpu.bus.ppu.as_ref().unwrap();
        assert_eq!(ppu.n_t, 0x6C0F | (0x0B << 5));
        assert!(!ppu.n_w);
        assert_eq!(ppu.n_v, 0);
        assert_eq!(ppu.ppuscroll, 0x5E);
    }
    emulator.cpu.bus.write(0x2000, 0x01);
    assert_eq!(emulator.cpu.bus.ppu.as_ref().unwrap().n_t, 0x640F | (0x0B << 5));
}

#[test]
fn test_background_picture() {
    let mut emulator = machine();
    background(&mut emulator);
    emulator.cpu.bus.write(0x2001, 0x0A);
    emulator.step_frame();
    emulator.step_frame();
    for y in [0usize, 1, 7] {
        assert_eq!(pixel(&emulator, 0, y), BLUE);
        assert_eq!(pixel(&emulator, 15, y), BLUE);
        for x in 16..20 {
            assert_eq!(pixel(&emulator, x, y), BLUE);
        }
        for x in 20..24 {
            assert_eq!(pixel(&emulator, x, y), BLACK);
        }
        assert_eq!(pixel(&emulator, 24, y), BLUE);
        assert_eq!(pixel(&emulator, 255, y), BLUE);
    }
    for x in [16usize, 20, 23] {
        assert_eq!(pixel(&emulator, x, 8), BLUE);
        assert_eq!(pixel(&emulator, x, 239), BLUE);
    }
}

#[test]
fn test_background_is_clipped_in_the_left_column() {
    let mut emulator = machine();
    background(&mut emulator);
    emulator.cpu.bus.write(0x2001, 0x08);
    emulator.step_frame();
    emulator.step_frame();
    for x in 0..8 {
        assert_eq!(pixel(&emulator, x, 100), BLACK);
    }
    assert_eq!(pixel(&emulator, 8, 100), BLUE);
}

#[test]
fn test_backdrop_without_background() {
    let mut emulator = machine();
    background(&mut emulator);
    poke(&mut emulator, 0x3F00, 0x21);
    emulator.step_frame();
    emulator.step_frame();
    assert_eq!(pixel(&emulator, 0, 0), BLUE);
    assert_eq!(pixel(&emulator, 128, 120), BLUE);
    assert_eq!(pixel(&emulator, 255, 239), BLUE);
}

#[test]
fn test_fine_x_scroll() {
    let mut emulator = machine();
    background(&mut emulator);
    emulator.cpu.bus.write(0x2001, 0x0A);
    emulator.cpu.bus.write(0x2005, 0x03);
    emulator.cpu.bus.write(0x2005, 0x00);
    emulator.step_frame();
    emulator.step_frame();
    assert_eq!(pixel(&emulator, 12, 0), BLUE);
    for x in 13..17 {
        assert_eq!(pixel(&emulator, x, 0), BLUE);
    }
    for x in 17..21 {
        assert_eq!(pixel(&emulator, x, 0), BLACK);
    }
    assert_eq!(pixel(&emulator, 21, 0), BLUE);
}

#[test]
fn test_attribute_picks_the_palette() {
    let mut emulator = machine();
    background(&mut emulator);
    // The first attribute byte: palette 1 top right, 2 bottom left, 3 bottom right.
    poke(&mut emulator, 0x23C0, 0b1110_0100);
    poke(&mut emulator, 0x3F05, 0x16);
    poke(&mut emulator, 0x3F09, 0x00);
    poke(&mut emulator, 0x3F0D, 0x3D);
    emulator.cpu.bus.write(0x2001, 0x0A);
    emulator.step_frame();
    emulator.step_frame();
    assert_eq!(pixel(&emulator, 0, 0), BLUE);
    assert_eq!(pixel(&emulator, 31, 0), RED);
    assert_eq!(pixel(&emulator, 15, 15), BLUE);
    assert_eq!(pixel(&emulator, 16, 15), RED);
    assert_eq!(pixel(&emulator, 0, 16), (84, 84, 84));
    assert_eq!(pixel(&emulator, 16, 31), (160, 162, 160));
    assert_eq!(pixel(&emulator, 32, 0), BLUE);
    assert_eq!(pixel(&emulator, 0, 32), BLUE);
}

fn put_sprite(emulator: &mut Emulator, sprite: usize, y: u8, tile: u8, attribute: u8, x: u8) {
    let ppu = emulator.cpu.bus.ppu.as_mut().unwrap();
    ppu.oam_primary[sprite * 4] = y;
    ppu.oam_primary[sprite * 4 + 1] = tile;
    ppu.oam_primary[sprite * 4 + 2] = attribute;
    ppu.oam_primary[sprite * 4 + 3] = x;
}

#[test]
fn test_sprite_picture() {
    let mut emulator = machine();
    background(&mut emulator);
    put_sprite(&mut emulator, 0, 49, 3, 0, 100);
    emulator.cpu.bus.write(0x2001, 0x1E);
    emulator.step_frame();
    emulator.step_frame();
    for x in 100..108 {
        for y in 50..58 {
            assert_eq!(pixel(&emulator, x, y), RED);
        }
    }
    assert_eq!(pixel(&emulator, 99, 50), BLUE);
    assert_eq!(pixel(&emulator, 108, 50), BLUE);
    assert_eq!(pixel(&emulator, 100, 49), BLUE);
    assert_eq!(pixel(&emulator, 100, 58), BLUE);
    // Sprite 0 met the background.
    assert_eq!(emulator.cpu.bus.ppu.as_ref().unwrap().ppustatus & 0x40, 0x40);
    assert_eq!(emulator.cpu.bus.ppu.as_ref().unwrap().ppustatus & 0x20, 0x00);
}

#[test]
fn test_sprite_flips() {
    let mut emulator = machine();
    background(&mut emulator);
    // Tile 4: only the top row, and in it only the left pixel, in color 3.
    poke(&mut emulator, 4 * 16, 0x80);
    poke(&mut emulator, 4 * 16 + 8, 0x80);
    put_sprite(&mut emulator, 0, 19, 4, 0x00, 40);
    put_sprite(&mut emulator, 1, 19, 4, 0x40, 60);
    put_sprite(&mut emulator, 2, 19, 4, 0x80, 80);
    put_sprite(&mut emulator, 3, 19, 4, 0xC0, 120);
    emulator.cpu.bus.write(0x2001, 0x1E);
    emulator.step_frame();
    emulator.step_frame();
    assert_eq!(pixel(&emulator, 40, 20), RED);
    assert_eq!(pixel(&emulator, 47, 20), BLUE);
    assert_eq!(pixel(&emulator, 67, 20), RED);
    assert_eq!(pixel(&emulator, 60, 20), BLUE);
    assert_eq!(pixel(&emulator, 80, 27), RED);
    assert_eq!(pixel(&emulator, 80, 20), BLUE);
    assert_eq!(pixel(&emulator, 127, 27), RED);
    assert_eq!(pixel(&emulator, 120, 20), BLUE);
}

#[test]
fn test_sprite_behind_background() {
    let mut emulator = machine();
    background(&mut emulator);
    // Row 0 of the picture: tile 2 in column 2 is transparent in its right half.
    put_sprite(&mut emulator, 0, 0, 3, 0x20, 16);
    emulator.cpu.bus.write(0x2001, 0x1E);
    emulator.step_frame();
    emulator.step_frame();
    for x in 16..20 {
        assert_eq!(pixel(&emulator, x, 1), BLUE);
    }
    for x in 20..24 {
        assert_eq!(pixel(&emulator, x, 1), RED);
    }
}

#[test]
fn test_first_sprite_wins() {
    let mut emulator = machine();
    background(&mut emulator);
    poke(&mut emulator, 0x3F17, 0x3D);
    put_sprite(&mut emulator, 5, 99, 3, 0x01, 50);
    put_sprite(&mut emulator, 9, 99, 3, 0x00, 54);
    emulator.cpu.bus.write(0x2001, 0x1E);
    emulator.step_frame();
    emulator.step_frame();
    for x in 50..58 {
        assert_eq!(pixel(&emulator, x, 100), (160, 162, 160));
    }
    for x in 58..62 {
        assert_eq!(pixel(&emulator, x, 100), RED);
    }
    // Sprite 0 is nowhere on the picture.
    assert_eq!(emulator.cpu.bus.ppu.as_ref().unwrap().ppustatus & 0x40, 0x00);
}

#[test]
fn test_sprites_are_clipped_in_the_left_column() {
    let mut emulator = machine();
    background(&mut emulator);
    put_sprite(&mut emulator, 0, 99, 3, 0x00, 4);
    emulator.cpu.bus.write(0x2001, 0x1A);
    emulator.step_frame();
    emulator.step_frame();
    for x in 4..8 {
        assert_eq!(pixel(&emulator, x, 100), BLUE);
    }
    for x in 8..12 {
        assert_eq!(pixel(&emulator, x, 100), RED);
    }
}

#[test]
fn test_sprites_hidden_low_on_the_picture() {
    let mut emulator = machine();
    background(&mut emulator);
    put_sprite(&mut emulator, 0, 0xEF, 3, 0x00, 10);
    put_sprite(&mut emulator, 1, 0xEE, 3, 0x00, 30);
    emulator.cpu.bus.write(0x2001, 0x1E);
    emulator.step_frame();
    emulator.step_frame();
    assert_eq!(pixel(&emulator, 10, 239), BLUE);
    assert_eq!(pixel(&emulator, 30, 239), RED);
}

#[test]
fn test_nine_sprites_on_a_line_raise_overflow() {
    let mut emulator = machine();
    background(&mut emulator);
    for sprite in 0..8 {
        put_sprite(&mut emulator, sprite, 99, 3, 0x00, 10 * sprite as u8);
    }
    emulator.cpu.bus.write(0x2001, 0x1E);
    emulator.step_frame();
    emulator.step_frame();
    assert_eq!(emulator.cpu.bus.ppu.as_ref().unwrap().ppustatus & 0x20, 0x00);
    put_sprite(&mut emulator, 8, 99, 3, 0x00, 200);
    emulator.step_frame();
    assert_eq!(emulator.cpu.bus.ppu.as_ref().unwrap().ppustatus & 0x20, 0x20);
    // The ninth sprite is not drawn.
    assert_eq!(pixel(&emulator, 200, 100), BLUE);
    assert_eq!(pixel(&emulator, 70, 100), RED);
}

#[test]
fn test_sprite_address_is_held_at_zero_while_sprites_load() {
    let mut emulator = machine();
    emulator.cpu.bus.write(0x2003, 0x40);
    let bus = &mut emulator.cpu.bus;
    let ppu = bus.ppu.as_mut().unwrap();
    while ppu.x != 258 {
        assert_eq!(ppu.oamaddr, 0x40);
        ppu.step(&bus.cartridge);
    }
    assert_eq!(ppu.oamaddr, 0);
}

/// Puts the picture unit at a dot with a scroll address, runs it for one dot
/// with the background on, and returns the scroll address after it.
fn scroll_after(x: u16, y: u16, v: u16, t: u16, mask: u8) -> u16 {
    let mut emulator = machine();
    let bus = &mut emulator.cpu.bus;
    let ppu = bus.ppu.as_mut().unwrap();
    ppu.x = x;
    ppu.y = y;
    ppu.n_v = v;
    ppu.n_t = t;
    ppu.ppumask = mask;
    ppu.step(&bus.cartridge);
    ppu.n_v
}

#[test]
fn test_vertical_scroll_moves_at_dot_256() {
    // Fine Y goes up by one; coarse X moves on as well.
    assert_eq!(scroll_after(256, 10, 0x2005, 0, 0x08), 0x3006);
    // Past fine Y 7 coarse Y goes up.
    assert_eq!(scroll_after(256, 10, 0x7000 | (3 << 5) | 5, 0, 0x08), (4 << 5) | 6);
    // From coarse Y 29 to 0, into the name table below.
    assert_eq!(scroll_after(256, 10, 0x7000 | (29 << 5) | 5, 0, 0x08), 0x0800 | 6);
    assert_eq!(scroll_after(256, 10, 0x7800 | (29 << 5) | 5, 0, 0x08), 6);
    // From coarse Y 31 to 0, in the same name table.
    assert_eq!(scroll_after(256, 10, 0x7000 | (31 << 5) | 5, 0, 0x08), 6);
    // With rendering off nothing moves.
    assert_eq!(scroll_after(256, 10, 0x2005, 0, 0x00), 0x2005);
}

#[test]
fn test_horizontal_scroll_moves_every_eighth_dot() {
    assert_eq!(scroll_after(8, 10, 0x0005, 0, 0x08), 0x0006);
    assert_eq!(scroll_after(7, 10, 0x0005, 0, 0x08), 0x0005);
    assert_eq!(scroll_after(248, 10, 0x0005, 0, 0x10), 0x0006);
    assert_eq!(scroll_after(328, 10, 0x0005, 0, 0x08), 0x0006);
    assert_eq!(scroll_after(336, 261, 0x0005, 0, 0x08), 0x0006);
    assert_eq!(scroll_after(264, 10, 0x0005, 0, 0x08), 0x0005);
    // Past the last tile of a name table into the one beside it.
    assert_eq!(scroll_after(16, 10, 0x001F, 0, 0x08), 0x0400);
    assert_eq!(scroll_after(16, 10, 0x041F, 0, 0x08), 0x0000);
    // The vertical blank and the idle scanline leave the scroll alone.
    assert_eq!(scroll_after(8, 240, 0x0005, 0, 0x08), 0x0005);
    assert_eq!(scroll_after(8, 250, 0x0005, 0, 0x08), 0x0005);
}

#[test]
fn test_scroll_is_reloaded() {
    // Dot 257 takes the horizontal bits from T.
    assert_eq!(scroll_after(257, 10, 0x7FFF, 0x0000, 0x08), 0x7BE0);
    assert_eq!(scroll_after(257, 10, 0x0000, 0x7FFF, 0x08), 0x041F);
    // The dots 280 to 304 of the last scanline take the vertical bits.
    assert_eq!(scroll_after(280, 261, 0x0000, 0x7FFF, 0x08), 0x7BE0);
    assert_eq!(scroll_after(304, 261, 0x7FFF, 0x0000, 0x08), 0x041F);
    assert_eq!(scroll_after(305, 261, 0x0000, 0x7FFF, 0x08), 0x0000);
    assert_eq!(scroll_after(280, 260, 0x0000, 0x7FFF, 0x08), 0x0000);
    assert_eq!(scroll_after(280, 100, 0x0000, 0x7FFF, 0x08), 0x0000);
}

#[test]
fn test_secondary_sprite_memory_is_cleared() {
    let mut emulator = machine();
    let bus = &mut emulator.cpu.bus;
    let ppu = bus.ppu.as_mut().unwrap();
    assert!(ppu.oam_secondary.iter().all(|byte| *byte == 0));
    while ppu.x != 33 {
        ppu.step(&bus.cartridge);
    }
    assert!(ppu.oam_secondary[..16].iter().all(|byte| *byte == 0xFF));
    assert!(ppu.oam_secondary[16..].iter().all(|byte| *byte == 0));
    while ppu.x != 65 {
        ppu.step(&bus.cartridge);
    }
    assert!(ppu.oam_secondary.iter().all(|byte| *byte == 0xFF));
}

#[test]
fn test_sprites_are_picked_for_the_next_scanline() {
    let mut emulator = machine();
    background(&mut emulator);
    put_sprite(&mut emulator, 3, 20, 0x11, 0x22, 0x33);
    put_sprite(&mut emulator, 7, 13, 0x44, 0x55, 0x66);
    put_sprite(&mut emulator, 9, 20, 0x77, 0x88, 0x99);
    let bus = &mut emulator.cpu.bus;
    let ppu = bus.ppu.as_mut().unwrap();
    while !(ppu.y == 20 && ppu.x == 257) {
        ppu.step(&bus.cartridge);
    }
    // Scanline 21 shows the sprites with the Y bytes 13 to 20.
    assert_eq!(&ppu.oam_secondary[..12], &[20, 0x11, 0x22, 0x33, 13, 0x44, 0x55, 0x66, 20, 0x77, 0x88, 0x99]);
    // The next slot holds the Y byte of the last sprite that was looked at.
    assert_eq!(ppu.oam_secondary[12], 0xF0);
    assert!(ppu.oam_secondary[13..].iter().all(|byte| *byte == 0xFF));
    while !(ppu.y == 21 && ppu.x == 257) {
        ppu.step(&bus.cartridge);
    }
    assert_eq!(&ppu.oam_secondary[..8], &[20, 0x11, 0x22, 0x33, 20, 0x77, 0x88, 0x99]);
    assert_eq!(ppu.oam_secondary[8], 0xF0);
    assert!(ppu.oam_secondary[9..].iter().all(|byte| *byte == 0xFF));
}
