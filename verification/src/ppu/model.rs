use crate::cartridge::CartridgeView;
use crate::ppu::bus::{cartridge_after_write, BusView};
use crate::ppu::display::{Color, DisplayView};
use crate::ppu::palette::system_palette;
use crate::ppu::shift_register::{bits_shifted, bytes_shifted};
use vstd::prelude::*;

verus! {

/// Dots in a scanline.
pub const DOTS_PER_SCANLINE: u16 = 341;

/// Scanlines in a frame.
pub const SCANLINES_PER_FRAME: u16 = 262;

pub const MASK_STATUS_VBLANK: u8 = 0b1000_0000;

pub const MASK_STATUS_SPRITE_ZERO_HIT: u8 = 0b0100_0000;

pub const MASK_STATUS_OVERFLOW: u8 = 0b0010_0000;

pub const MASK_CONTROLLER_NMI: u8 = 0b1000_0000;

pub const MASK_CONTROLLER_BACKGROUND_PATTERN_TABLE_ADDRESS: u8 = 0b0001_0000;

pub const MASK_CONTROLLER_SPRITE_PATTERN_TABLE_ADDRESS: u8 = 0b0000_1000;

pub const MASK_SPRITE_BEHIND_BACKGROUND: u8 = 0b0010_0000;

pub const MASK_FLIP_SPRITE_HORIZONTALLY: u8 = 0b0100_0000;

pub const MASK_FLIP_SPRITE_VERTICALLY: u8 = 0b1000_0000;

/// The byte with its bits in the opposite order: bit 0 becomes bit 7, bit 1
/// becomes bit 6, and so on.
pub open spec fn reversed(byte: u8) -> u8 {
    ((byte & 0x01) << 7) | ((byte & 0x02) << 5) | ((byte & 0x04) << 3) | ((byte & 0x08) << 1) | ((
    byte & 0x10) >> 1) | ((byte & 0x20) >> 3) | ((byte & 0x40) >> 5) | ((byte & 0x80) >> 7)
}

/// The state of the picture unit as plain values.
pub struct PpuView {
    /// Current VRAM address (15 bits): fine Y, name table, coarse Y, coarse X.
    pub n_v: u16,
    pub ppuctrl: u8,
    pub ppumask: u8,
    pub ppustatus: u8,
    pub ppuscroll: u8,
    pub oamaddr: u8,
    pub oamdata: u8,
    /// The dot within the scanline.
    pub x: u16,
    /// The scanline.
    pub y: u16,
    pub bus: BusView,
    pub display: DisplayView,
    /// An interrupt waits for the processor to take it.
    pub nmi_occurred: bool,
    pub ppudata_buffer: u8,
    pub shift_att_table: Seq<u8>,
    pub shift_pattern_l: Seq<u8>,
    pub shift_pattern_h: Seq<u8>,
    pub latch_nametable: u8,
    pub latch_attribute: u8,
    pub latch_background_pattern_high: u8,
    pub latch_background_pattern_low: u8,
    pub oam_primary: Seq<u8>,
    pub oam_primary_n: u8,
    pub oam_primary_m: u8,
    pub oam_secondary_write_lock: bool,
    pub oam_temp_value: u8,
    pub oam_secondary: Seq<u8>,
    pub oam_secondary_n: u8,
    pub oam_copying_sprite: bool,
    pub oam_overflow_reads_left: u8,
    pub oam_pattern_low: Seq<u8>,
    pub oam_pattern_high: Seq<u8>,
    pub oam_latches: Seq<u8>,
    pub oam_counters: Seq<u8>,
    pub oam_sprite_fetched_y: u8,
    pub oam_sprite_fetched_tile_index: u8,
    /// Sprite 0 was picked for the next scanline.
    pub sprite_zero_next: bool,
    /// Sprite 0 sits in the first slot of the scanline that is drawn.
    pub sprite_zero_current: bool,
    /// Temporary VRAM address (15 bits), laid out as `n_v`.
    pub n_t: u16,
    /// Fine X scroll (3 bits).
    pub n_x: u16,
    /// First or second write toggle.
    pub n_w: bool,
}

impl PpuView {
    /// The dot lies inside the frame, the memories have their sizes, and the
    /// counters of the sprite evaluation are inside their ranges.
    pub open spec fn wf(self) -> bool {
        &&& self.x < DOTS_PER_SCANLINE
        &&& self.y < SCANLINES_PER_FRAME
        &&& self.n_x < 8
        &&& self.bus.wf()
        &&& self.display.wf()
        &&& self.display.width == 256
        &&& self.display.height == 240
        &&& self.shift_att_table.len() == 2
        &&& self.shift_pattern_l.len() == 2
        &&& self.shift_pattern_h.len() == 2
        &&& self.oam_primary.len() == 256
        &&& self.oam_secondary.len() == 32
        &&& self.oam_pattern_low.len() == 8
        &&& self.oam_pattern_high.len() == 8
        &&& self.oam_latches.len() == 8
        &&& self.oam_counters.len() == 8
        &&& self.oam_primary_n <= 64
        &&& self.oam_primary_m <= 3
        &&& self.oam_secondary_n <= 8
        &&& (self.oam_copying_sprite ==> self.oam_secondary_n < 8)
        &&& (!self.oam_copying_sprite && self.oam_secondary_n < 8 ==> self.oam_primary_m == 0)
    }

    pub open spec fn coarse_x(self) -> u16 {
        self.n_v & 0x001f
    }

    pub open spec fn coarse_y(self) -> u16 {
        (self.n_v >> 5) & 0x001f
    }

    pub open spec fn fine_y(self) -> u16 {
        (self.n_v >> 12) & 0x0007
    }

    /// Coarse X moves one tile to the right; past the last tile of a name
    /// table it starts over in the table beside it.
    pub open spec fn coarse_x_increment(self) -> PpuView {
        if self.coarse_x() == 0x001f {
            PpuView { n_v: (self.n_v & !0x001fu16) ^ 0x0400, ..self }
        } else {
            PpuView { n_v: (self.n_v + 1) as u16, ..self }
        }
    }

    /// Fine Y moves one row down; past the last row of a tile coarse Y moves
    /// on. Coarse Y goes from 29 to 0 and changes to the name table below,
    /// and from 31 to 0 without that change.
    pub open spec fn y_increment(self) -> PpuView {
        if self.fine_y() < 7 {
            PpuView { n_v: (self.n_v + 0x1000) as u16, ..self }
        } else {
            let cleared = self.n_v & !0x7000u16;
            let row = (cleared >> 5) & 0x001f;
            let switched = if row == 29 {
                cleared ^ 0x0800
            } else {
                cleared
            };
            let next_row: u16 = if row == 29 || row == 31 {
                0
            } else {
                (row + 1) as u16
            };
            PpuView { n_v: (switched & !0x03e0u16) | (next_row << 5), ..self }
        }
    }

    /// Address of the name table byte of the current tile.
    pub open spec fn tile_address(self) -> u16 {
        0x2000 | (self.n_v & 0x0fff)
    }

    /// Address of the attribute byte of the current tile.
    pub open spec fn attribute_address(self) -> u16 {
        0x23c0 | (self.n_v & 0x0c00) | ((self.n_v >> 4) & 0x38) | ((self.n_v >> 2) & 0x07)
    }

    /// Background or sprites are switched on.
    pub open spec fn rendering_enabled(self) -> bool {
        (self.ppumask & 0x18) > 0
    }

    /// The unit after a write to the scroll register. The first write sets
    /// coarse X of T and fine X, the second coarse Y and fine Y of T.
    pub open spec fn write_ppuscroll(self, value: u8) -> PpuView {
        if !self.n_w {
            PpuView {
                n_t: (self.n_t & 0xffe0) | ((value as u16) >> 3),
                n_x: (value as u16) & 0x07,
                n_w: true,
                ..self
            }
        } else {
            PpuView {
                n_t: (self.n_t & 0b0000_1100_0001_1111) | (((value as u16) & 0xf8) << 2) | (((
                value as u16) & 0x07) << 12),
                n_w: false,
                ..self
            }
        }
    }

    /// The unit after a write to the address register. The first write sets
    /// the high six bits of T and clears bit 14, the second sets the low
    /// eight bits and copies T to V.
    pub open spec fn write_ppuaddr(self, value: u8) -> PpuView {
        if !self.n_w {
            PpuView { n_t: (self.n_t & 0x00ff) | (((value & 0x3f) as u16) << 8), n_w: true, ..self }
        } else {
            PpuView {
                n_t: (self.n_t & 0xff00) | (value as u16),
                n_v: (self.n_t & 0xff00) | (value as u16),
                n_w: false,
                ..self
            }
        }
    }

    /// The unit after the status register was read: the vertical blank flag
    /// and the write toggle are cleared, and a waiting interrupt is dropped.
    pub open spec fn read_ppustatus(self) -> PpuView {
        PpuView { ppustatus: self.ppustatus & 0x7F, nmi_occurred: false, n_w: false, ..self }
    }

    /// By how much V grows after an access to the data register.
    pub open spec fn vram_address_increment(self) -> u16 {
        if self.ppuctrl & 0x04 == 0x04 {
            32
        } else {
            1
        }
    }

    /// V after an access to the data register.
    pub open spec fn next_vram_address(self) -> u16 {
        self.n_v.wrapping_add(self.vram_address_increment()) & 0x7FFF
    }

    /// The address that V puts on the 14 bit bus.
    pub open spec fn vram_address(self) -> u16 {
        self.n_v & 0x3FFF
    }

    /// What a read of the data register returns: the palette byte itself
    /// for a palette address, else the byte that the read before fetched.
    pub open spec fn ppudata_value(self, cartridge: CartridgeView) -> u8 {
        if self.vram_address() >= 0x3F00 {
            self.bus.read(cartridge, self.vram_address())
        } else {
            self.ppudata_buffer
        }
    }

    /// The unit after a read of the data register: the buffer takes the byte
    /// at V (for a palette address the name table byte 0x1000 below), and V
    /// moves on.
    pub open spec fn read_ppudata(self, cartridge: CartridgeView) -> PpuView {
        PpuView {
            ppudata_buffer: if self.vram_address() >= 0x3F00 {
                self.bus.read(cartridge, (self.vram_address() - 0x1000) as u16)
            } else {
                self.bus.read(cartridge, self.vram_address())
            },
            n_v: self.next_vram_address(),
            ..self
        }
    }

    /// The unit after a write to the data register.
    pub open spec fn write_ppudata(self, cartridge: CartridgeView, value: u8) -> PpuView {
        PpuView {
            bus: self.bus.write(cartridge, self.vram_address(), value),
            n_v: self.next_vram_address(),
            ..self
        }
    }

    /// The cartridge after a write to the data register.
    pub open spec fn cartridge_after_write_ppudata(self, cartridge: CartridgeView, value: u8)
        -> CartridgeView {
        cartridge_after_write(cartridge, self.vram_address(), value)
    }

    /// The unit after a write to the control register: the register is kept
    /// and its low two bits become the name table bits of T.
    pub open spec fn write_ppuctrl(self, value: u8) -> PpuView {
        PpuView {
            ppuctrl: value,
            n_t: (self.n_t & !0x0c00u16) | (((value & 0x03) as u16) << 10),
            ..self
        }
    }

    /// The control register lets the vertical blank raise an interrupt.
    pub open spec fn nmi_output(self) -> bool {
        (self.ppuctrl & MASK_CONTROLLER_NMI) == MASK_CONTROLLER_NMI
    }

    /// The processor finds an interrupt when it samples the line.
    pub open spec fn nmi_line(self) -> bool {
        self.nmi_occurred && self.nmi_output()
    }

    /// The unit after the processor sampled the interrupt line.
    pub open spec fn is_nmi(self) -> PpuView {
        PpuView { nmi_occurred: false, ..self }
    }

    /// The unit after one byte of a sprite DMA arrived: it is stored at the
    /// sprite address, which moves on.
    pub open spec fn write_oamdma(self, value: u8) -> PpuView {
        PpuView {
            oam_primary: self.oam_primary.update(self.oamaddr as int, value),
            oamaddr: self.oamaddr.wrapping_add(1),
            ..self
        }
    }

    /// The unit after a write to the sprite data register.
    pub open spec fn write_oamdata(self, value: u8) -> PpuView {
        PpuView { oamdata: value, ..self }.write_oamdma(value)
    }

    /// What a read of the sprite data register returns.
    pub open spec fn read_oamdata(self) -> u8 {
        self.oam_primary[self.oamaddr as int]
    }

    pub open spec fn next_x(self) -> u16 {
        ((self.x + 1) % (DOTS_PER_SCANLINE as int)) as u16
    }

    pub open spec fn next_y(self) -> u16 {
        ((self.y + 1) % (SCANLINES_PER_FRAME as int)) as u16
    }

    /// Dot 1 of scanline 241, where the vertical blank starts.
    pub open spec fn vblank_start(self) -> bool {
        self.y == 241 && self.x == 1
    }

    /// Dot 1 of scanline 261, where the vertical blank ends.
    pub open spec fn vblank_end(self) -> bool {
        self.y == 261 && self.x == 1
    }

    /// The flags of the status register at this dot: the vertical blank flag
    /// goes up where the blank starts; it goes down, with the sprite 0 hit
    /// and the overflow flag, where the blank ends.
    pub open spec fn update_status(self) -> PpuView {
        if self.vblank_start() {
            PpuView { ppustatus: self.ppustatus | MASK_STATUS_VBLANK, ..self }
        } else if self.vblank_end() {
            PpuView { ppustatus: self.ppustatus & 0b0001_1111, ..self }
        } else {
            self
        }
    }

    /// The interrupt latch at this dot: set at the start of the vertical
    /// blank if the control register asks for interrupts, dropped at its end.
    pub open spec fn vertical_blanking_lines(self) -> PpuView {
        if self.vblank_start() {
            PpuView {
                nmi_occurred: self.nmi_output(),
                ppustatus: self.ppustatus | MASK_STATUS_VBLANK,
                ..self
            }
        } else if self.vblank_end() {
            PpuView { nmi_occurred: false, ppustatus: self.ppustatus & 0x7F, ..self }
        } else {
            self
        }
    }

    /// Where the pattern table of the background starts.
    pub open spec fn background_pattern_table_address(self) -> u16 {
        ((self.ppuctrl & MASK_CONTROLLER_BACKGROUND_PATTERN_TABLE_ADDRESS) as u16) << 8
    }

    /// Where the pattern table of the sprites starts.
    pub open spec fn sprite_pattern_table_address(self) -> u16 {
        ((self.ppuctrl & MASK_CONTROLLER_SPRITE_PATTERN_TABLE_ADDRESS) as u16) << 9
    }

    /// Address of the low pattern byte of the row of the latched tile that V
    /// points at.
    pub open spec fn background_pattern_address(self) -> u16 {
        self.background_pattern_table_address() | ((self.latch_nametable as u16) << 4)
            | self.fine_y()
    }

    /// The latches are moved into the shift registers: the attribute
    /// register moves on by a byte first.
    pub open spec fn update_shift_registers_from_latches(self) -> PpuView {
        PpuView {
            shift_att_table: bytes_shifted(self.shift_att_table).update(1, self.latch_attribute),
            shift_pattern_l: self.shift_pattern_l.update(1, self.latch_background_pattern_low),
            shift_pattern_h: self.shift_pattern_h.update(1, self.latch_background_pattern_high),
            ..self
        }
    }

    /// Both pattern registers move on by one pixel.
    pub open spec fn shift_patterns(self) -> PpuView {
        PpuView {
            shift_pattern_l: bits_shifted(self.shift_pattern_l),
            shift_pattern_h: bits_shifted(self.shift_pattern_h),
            ..self
        }
    }

    /// The background fetch of this dot. Each group of eight dots fetches,
    /// two dots apart, the name table byte, the attribute byte, the low and
    /// the high pattern byte, and then reloads the shift registers. Nothing
    /// is fetched while rendering is off.
    pub open spec fn fetch_match(self, cartridge: CartridgeView) -> PpuView {
        if !self.rendering_enabled() {
            self
        } else {
            let step = ((self.x - 1) % 8) + 1;
            if step == 2 {
                PpuView { latch_nametable: self.bus.read(cartridge, self.tile_address()), ..self }
            } else if step == 4 {
                PpuView {
                    latch_attribute: self.bus.read(cartridge, self.attribute_address()),
                    ..self
                }
            } else if step == 6 {
                PpuView {
                    latch_background_pattern_low: reversed(
                        self.bus.read(cartridge, self.background_pattern_address()),
                    ),
                    ..self
                }
            } else if step == 8 {
                PpuView {
                    latch_background_pattern_high: reversed(
                        self.bus.read(cartridge, self.background_pattern_address() | 0x8),
                    ),
                    ..self
                }.update_shift_registers_from_latches()
            } else {
                self
            }
        }
    }

    /// The scroll registers at this dot, while rendering is on: at dot 256
    /// Y and coarse X move on, at dot 257 the horizontal bits of T are
    /// copied to V, at the dots 280 to 304 of the last scanline the vertical
    /// bits, and at every eighth dot of a fetch coarse X moves on.
    pub open spec fn update_xy(self) -> PpuView {
        if self.x == 256 {
            self.y_increment().coarse_x_increment()
        } else if self.x == 257 {
            PpuView { n_v: (self.n_v & !0x041fu16) | (self.n_t & 0x041f), ..self }
        } else if self.y == 261 && 280 <= self.x <= 304 {
            PpuView { n_v: (self.n_v & !0x7be0u16) | (self.n_t & 0x7be0), ..self }
        } else if self.x % 8 == 0 && ((8 <= self.x <= 248) || (328 <= self.x <= 336)) {
            self.coarse_x_increment()
        } else {
            self
        }
    }

    /// At every second of the dots 1 to 64 one byte of the secondary sprite
    /// memory is set to 0xFF.
    pub open spec fn clear_oam_secondary(self) -> PpuView {
        if self.x % 2 == 0 {
            PpuView {
                oam_secondary: self.oam_secondary.update((self.x - 1) / 2, 0xffu8),
                ..self
            }
        } else {
            self
        }
    }

    /// A sprite whose Y byte is `sprite_y` has a row on the next scanline.
    pub open spec fn in_range(self, sprite_y: u8) -> bool {
        sprite_y + 1 <= self.next_y() < sprite_y + 9
    }

    /// The counters of the sprite evaluation at its first dot.
    pub open spec fn evaluation_start(self) -> PpuView {
        if self.x == 65 {
            PpuView {
                oam_primary_m: 0,
                oam_primary_n: 0,
                oam_secondary_n: 0,
                oam_secondary_write_lock: false,
                oam_copying_sprite: false,
                oam_overflow_reads_left: 0,
                sprite_zero_next: false,
                ..self
            }
        } else {
            self
        }
    }

    /// The byte in flight is put into the secondary sprite memory while that
    /// has room and is not locked.
    pub open spec fn evaluation_store(self) -> PpuView {
        if !self.oam_secondary_write_lock && self.oam_secondary_n < 8 {
            PpuView {
                oam_secondary: self.oam_secondary.update(
                    self.oam_secondary_n * 4 + self.oam_primary_m,
                    self.oam_temp_value,
                ),
                ..self
            }
        } else {
            self
        }
    }

    /// One more byte of a sprite that is being copied; after its fourth
    /// byte the next sprite and the next slot are taken up.
    pub open spec fn evaluation_copy(self) -> PpuView {
        if self.oam_primary_m + 1 == 4 {
            PpuView {
                oam_primary_m: 0,
                oam_secondary_n: (self.oam_secondary_n + 1) as u8,
                oam_primary_n: (self.oam_primary_n + 1) as u8,
                oam_copying_sprite: false,
                ..self
            }
        } else {
            PpuView { oam_primary_m: (self.oam_primary_m + 1) as u8, ..self }
        }
    }

    /// The search for a ninth sprite once all eight slots are taken. The
    /// byte in flight is taken for a Y byte; in range it raises the overflow
    /// flag, else the sprite counter moves on. The byte counter moves on
    /// either way, so that the next byte looked at is not a Y byte. When
    /// the byte counter has gone round it carries into the sprite counter,
    /// which stops at 64, and three reads are left out.
    pub open spec fn evaluation_overflow(self) -> PpuView {
        let hit = self.in_range(self.oam_temp_value);
        let status = if hit {
            self.ppustatus | MASK_STATUS_OVERFLOW
        } else {
            self.ppustatus
        };
        let n: u8 = if hit {
            self.oam_primary_n
        } else {
            (self.oam_primary_n + 1) as u8
        };
        if self.oam_primary_m + 1 == 4 {
            PpuView {
                oam_secondary_write_lock: true,
                ppustatus: status,
                oam_primary_m: 0,
                oam_primary_n: if n < 64 {
                    (n + 1) as u8
                } else {
                    64
                },
                oam_overflow_reads_left: 3,
                ..self
            }
        } else {
            PpuView {
                oam_secondary_write_lock: true,
                ppustatus: status,
                oam_primary_m: (self.oam_primary_m + 1) as u8,
                oam_primary_n: n,
                ..self
            }
        }
    }

    /// The byte in flight is the Y byte of a sprite: in range the sprite is
    /// copied, else the next sprite is looked at.
    pub open spec fn evaluation_test(self) -> PpuView {
        if self.in_range(self.oam_temp_value) {
            PpuView {
                oam_copying_sprite: true,
                oam_primary_m: (self.oam_primary_m + 1) as u8,
                sprite_zero_next: self.sprite_zero_next || self.oam_primary_n == 0,
                ..self
            }
        } else {
            PpuView { oam_primary_n: (self.oam_primary_n + 1) as u8, ..self }
        }
    }

    /// One dot of the sprite evaluation (dots 65 to 256): odd dots read a
    /// byte of the primary sprite memory, even dots act on it.
    pub open spec fn evaluate_sprites(self) -> PpuView {
        let start = self.evaluation_start();
        if start.oam_primary_n == 64 {
            start
        } else if start.x % 2 == 1 {
            PpuView {
                oam_temp_value: start.oam_primary[start.oam_primary_n * 4 + start.oam_primary_m],
                ..start
            }
        } else if start.oam_overflow_reads_left > 0 {
            PpuView {
                oam_overflow_reads_left: (start.oam_overflow_reads_left - 1) as u8,
                ..start
            }
        } else {
            let stored = start.evaluation_store();
            if stored.oam_copying_sprite {
                stored.evaluation_copy()
            } else if stored.oam_secondary_n == 8 {
                stored.evaluation_overflow()
            } else {
                stored.evaluation_test()
            }
        }
    }

    /// The pattern byte of one plane of the sprite that was fetched into
    /// slot `slot`, for the next scanline. A sprite with a Y byte of 0xEF or
    /// more, or without a row on that scanline, gives 0. A vertical flip
    /// takes the rows from the bottom, a horizontal flip turns the byte
    /// round.
    pub open spec fn sprite_tile_byte(self, cartridge: CartridgeView, slot: int, high_plane: bool)
        -> u8 {
        let sprite_y = self.oam_sprite_fetched_y;
        if sprite_y >= 0xef || !self.in_range(sprite_y) {
            0
        } else {
            let row = (self.next_y() - (sprite_y + 1)) as u16;
            let flip_h = self.oam_latches[slot] & MASK_FLIP_SPRITE_HORIZONTALLY > 0;
            let flip_v = self.oam_latches[slot] & MASK_FLIP_SPRITE_VERTICALLY > 0;
            let tile_row: u16 = if flip_v {
                (7 - row) as u16
            } else {
                row
            };
            let tile_byte = self.sprite_pattern_byte(
                cartridge,
                self.oam_sprite_fetched_tile_index,
                tile_row,
                high_plane,
            );
            if flip_h {
                reversed(tile_byte)
            } else {
                tile_byte
            }
        }
    }

    /// Row `tile_row` (0 to 7) of one plane of the sprite tile
    /// `pattern_index`, in the bit order in which it is shifted out.
    pub open spec fn sprite_pattern_byte(
        self,
        cartridge: CartridgeView,
        pattern_index: u8,
        tile_row: u16,
        high_plane: bool,
    ) -> u8 {
        let address = self.sprite_pattern_table_address() | ((pattern_index as u16) << 4)
            | tile_row;
        if high_plane {
            reversed(self.bus.read(cartridge, address | 0x8))
        } else {
            reversed(self.bus.read(cartridge, address))
        }
    }

    /// The sprite fetch of this dot (dots 257 to 320). Each of the eight
    /// slots has eight dots: the Y byte, the tile number, the attributes and
    /// the X byte are read from the secondary sprite memory, then the low and
    /// the high pattern byte are fetched.
    pub open spec fn fetch_sprites(self, cartridge: CartridgeView) -> PpuView {
        let step = ((self.x - 257) % 8) + 1;
        let slot = (self.x - 257) / 8;
        if step == 1 {
            PpuView {
                oam_sprite_fetched_y: self.oam_secondary[slot * 4],
                sprite_zero_current: if slot == 0 {
                    self.sprite_zero_next
                } else {
                    self.sprite_zero_current
                },
                ..self
            }
        } else if step == 2 {
            PpuView { oam_sprite_fetched_tile_index: self.oam_secondary[slot * 4 + 1], ..self }
        } else if step == 3 {
            PpuView {
                oam_latches: self.oam_latches.update(slot, self.oam_secondary[slot * 4 + 2]),
                ..self
            }
        } else if step == 4 {
            PpuView {
                oam_counters: self.oam_counters.update(slot, self.oam_secondary[slot * 4 + 3]),
                ..self
            }
        } else if step == 5 {
            PpuView {
                oam_pattern_low: self.oam_pattern_low.update(
                    slot,
                    self.sprite_tile_byte(cartridge, slot, false),
                ),
                ..self
            }
        } else if step == 7 {
            PpuView {
                oam_pattern_high: self.oam_pattern_high.update(
                    slot,
                    self.sprite_tile_byte(cartridge, slot, true),
                ),
                ..self
            }
        } else {
            self
        }
    }

    /// The sprite work of this dot on a scanline that fetches.
    pub open spec fn prepare_sprites(self, cartridge: CartridgeView) -> PpuView {
        if 1 <= self.x <= 64 {
            self.clear_oam_secondary()
        } else if 65 <= self.x <= 256 {
            self.evaluate_sprites()
        } else if 257 <= self.x <= 320 {
            self.fetch_sprites(cartridge)
        } else {
            self
        }
    }

    /// The background work of this dot on a scanline that fetches. The dots
    /// 1 to 256 and 321 to 336 shift and fetch; the dots 257 to 320 hold the
    /// sprite address at 0.
    pub open spec fn fetch_background(self, cartridge: CartridgeView) -> PpuView {
        if (1 <= self.x <= 256) || (321 <= self.x <= 336) {
            self.shift_patterns().fetch_match(cartridge)
        } else if 257 <= self.x <= 320 {
            PpuView { oamaddr: 0, ..self }
        } else {
            self
        }
    }

    /// All fetches of this dot on a visible scanline or on the last one.
    pub open spec fn fetch_stuff(self, cartridge: CartridgeView) -> PpuView {
        let fetched = self.prepare_sprites(cartridge).fetch_background(cartridge);
        if fetched.rendering_enabled() {
            fetched.update_xy()
        } else {
            fetched
        }
    }

    /// The two pattern bits of the sprite in slot `slot` at this dot.
    pub open spec fn sprite_pattern(self, slot: int) -> u8 {
        ((self.oam_pattern_high[slot] & 1) << 1) | (self.oam_pattern_low[slot] & 1)
    }

    /// The sprite in slot `slot` has reached its column and is not
    /// transparent at this dot.
    pub open spec fn sprite_opaque(self, slot: int) -> bool {
        self.oam_counters[slot] == 0 && self.sprite_pattern(slot) != 0
    }

    /// The first slot from `from` on whose sprite is opaque at this dot; 8
    /// if there is none.
    pub open spec fn first_opaque_sprite(self, from: int) -> int
        decreases 8 - from,
    {
        if from >= 8 {
            8
        } else if self.sprite_opaque(from) {
            from
        } else {
            self.first_opaque_sprite(from + 1)
        }
    }

    /// The dot lies in the eight leftmost pixels of the picture.
    pub open spec fn in_left_column(self) -> bool {
        self.x <= 8
    }

    /// Sprites are shown at this dot: the mask switches them on and does
    /// not clip them in the left column.
    pub open spec fn show_sprites(self) -> bool {
        (self.ppumask >> 4) & 1 == 1 && (!self.in_left_column() || (self.ppumask >> 2) & 1 == 1)
    }

    /// The background is shown at this dot.
    pub open spec fn show_background(self) -> bool {
        (self.ppumask >> 3) & 1 == 1 && (!self.in_left_column() || (self.ppumask >> 1) & 1 == 1)
    }

    /// The slot of the sprite that is seen at this dot; 8 if none is.
    pub open spec fn sprite_slot(self) -> int {
        if self.show_sprites() {
            self.first_opaque_sprite(0)
        } else {
            8
        }
    }

    /// The two pattern bits of the background at this dot: fine X picks the
    /// bit of each pattern register, counted from its low end.
    pub open spec fn background_pattern(self) -> u8 {
        (((self.shift_pattern_h[0] >> self.n_x) & 1) << 1) | ((self.shift_pattern_l[0]
            >> self.n_x) & 1)
    }

    /// The palette of the background at this dot: two bits of the attribute
    /// byte, picked by the quarter of the 32 by 32 pixel block the dot is in.
    pub open spec fn background_palette(self) -> u8 {
        let attribute_shift = ((((self.x - 1) as u16) & 0x10) >> 3) | ((self.y & 0x10) >> 2);
        (self.shift_att_table[0] >> attribute_shift) & 0x03
    }

    /// The palette index of the background at this dot; 0 where the
    /// background is off, clipped or transparent.
    pub open spec fn background_index(self) -> u16 {
        if self.show_background() && self.background_pattern() != 0 {
            ((self.background_palette() as u16) << 2) | (self.background_pattern() as u16)
        } else {
            0
        }
    }

    /// The palette index of the sprite in slot `slot` at this dot.
    pub open spec fn sprite_index(self, slot: int) -> u16 {
        0x10 | (((self.oam_latches[slot] & 0x03) as u16) << 2) | (self.sprite_pattern(slot) as u16)
    }

    /// The sprite in slot `slot` stands behind an opaque background.
    pub open spec fn sprite_hidden(self, slot: int) -> bool {
        self.oam_latches[slot] & MASK_SPRITE_BEHIND_BACKGROUND != 0 && self.background_index() != 0
    }

    /// The palette index of the pixel at this dot: that of the first opaque
    /// sprite unless it stands behind an opaque background, else that of the
    /// background.
    pub open spec fn pixel_index(self) -> u16 {
        let slot = self.sprite_slot();
        if slot < 8 && !self.sprite_hidden(slot) {
            self.sprite_index(slot)
        } else {
            self.background_index()
        }
    }

    /// The color of the pixel at this dot.
    pub open spec fn pixel_color(self) -> Color {
        system_palette()[(self.bus.color_number(self.pixel_index()) % 0x40) as int]
    }

    /// Sprite 0 and the background are both opaque at this dot.
    pub open spec fn sprite_zero_hit(self) -> bool {
        self.sprite_zero_current && self.sprite_slot() == 0 && self.background_index() != 0
    }

    /// The pattern bytes of the sprites after this dot: a sprite that has
    /// reached its column moves on by one pixel.
    pub open spec fn sprite_patterns_shifted(self, patterns: Seq<u8>) -> Seq<u8> {
        Seq::new(
            8,
            |i: int|
                if self.oam_counters[i] == 0 {
                    patterns[i] >> 1
                } else {
                    patterns[i]
                },
        )
    }

    /// The X counters of the sprites after this dot: each one above zero
    /// goes down by one.
    pub open spec fn sprite_counters_stepped(self) -> Seq<u8> {
        Seq::new(
            8,
            |i: int|
                if self.oam_counters[i] > 0 {
                    (self.oam_counters[i] - 1) as u8
                } else {
                    0u8
                },
        )
    }

    /// One dot of a visible scanline: at the dots 1 to 256 the pixel is put
    /// out, a sprite 0 hit is noted, and the sprites move on.
    pub open spec fn visible_scanline(self) -> PpuView {
        if 1 <= self.x <= 256 {
            PpuView {
                display: self.display.with_pixel(
                    (self.x - 1) as usize,
                    self.y as usize,
                    self.pixel_color(),
                ),
                ppustatus: if self.sprite_zero_hit() {
                    self.ppustatus | MASK_STATUS_SPRITE_ZERO_HIT
                } else {
                    self.ppustatus
                },
                oam_pattern_high: self.sprite_patterns_shifted(self.oam_pattern_high),
                oam_pattern_low: self.sprite_patterns_shifted(self.oam_pattern_low),
                oam_counters: self.sprite_counters_stepped(),
                ..self
            }
        } else {
            self
        }
    }

    /// The dot moves on, to the next scanline after the last dot of one and
    /// to scanline 0 after the last scanline.
    pub open spec fn advance(self) -> PpuView {
        if self.next_x() == 0 {
            PpuView { x: 0, y: self.next_y(), ..self }
        } else {
            PpuView { x: self.next_x(), ..self }
        }
    }

    /// The work of this dot by scanline: the scanlines 0 to 239 draw and
    /// fetch, 240 idles, 241 to 260 are the vertical blank, 261 fetches for
    /// the frame to come.
    #[verifier::opaque]
    pub open spec fn scanline_work(self, cartridge: CartridgeView) -> PpuView {
        if self.y <= 239 {
            self.visible_scanline().fetch_stuff(cartridge)
        } else if self.y == 240 {
            self
        } else if self.y <= 260 {
            self.vertical_blanking_lines()
        } else {
            self.fetch_stuff(cartridge).vertical_blanking_lines()
        }
    }

    /// The unit one dot later.
    #[verifier::opaque]
    pub open spec fn cycle(self, cartridge: CartridgeView) -> PpuView {
        self.update_status().scanline_work(cartridge).advance()
    }

    /// The palette index that the palette viewer shows at `position` (0 to
    /// 31).
    pub open spec fn viewer_index(position: int) -> u16 {
        (((position / 8) as u16) << 2) | ((position % 4) as u16)
    }

    /// The 32 colors of the palette viewer.
    pub open spec fn current_palette(self) -> Seq<Color> {
        Seq::new(
            32,
            |i: int| system_palette()[(self.bus.color_number(Self::viewer_index(i)) % 0x40) as int],
        )
    }

    /// The colors of the palette viewer as bytes, three for each color.
    pub open spec fn current_palettes_raw(self) -> Seq<u8> {
        Seq::new(96, |i: int| self.current_palette()[i / 3].bytes()[i % 3])
    }

    /// The two bit pattern value of the pixel in column `x` of row `y` (both
    /// 0 to 127) of the picture of 16 by 16 tiles that shows the pattern
    /// table at `table` (0 or 0x1000).
    pub open spec fn pattern_pixel(self, cartridge: CartridgeView, table: u16, x: int, y: int)
        -> u8 {
        let address = (table + (y / 8) * 256 + (x / 8) * 16 + y % 8) as u16;
        let low = self.bus.read(cartridge, address);
        let high = self.bus.read(cartridge, (address + 8) as u16);
        let shift = (7 - x % 8) as u8;
        ((low >> shift) & 1) | (((high >> shift) & 1) << 1)
    }
}

} // verus!
