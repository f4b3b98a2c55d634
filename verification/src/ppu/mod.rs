use crate::cartridge::Cartridge;
use crate::ppu::bus::Bus;
use crate::ppu::display::{lemma_set_then_get, Color, Display};
use crate::ppu::model::{
    reversed, PpuView, MASK_CONTROLLER_BACKGROUND_PATTERN_TABLE_ADDRESS, MASK_CONTROLLER_NMI,
    MASK_CONTROLLER_SPRITE_PATTERN_TABLE_ADDRESS, MASK_FLIP_SPRITE_HORIZONTALLY,
    MASK_FLIP_SPRITE_VERTICALLY, MASK_SPRITE_BEHIND_BACKGROUND, MASK_STATUS_OVERFLOW,
    MASK_STATUS_SPRITE_ZERO_HIT, MASK_STATUS_VBLANK,
};
use crate::ppu::palette::{greyscale, greyscale_table, Palette};
use crate::ppu::shift_register::ShiftRegister;
use vstd::prelude::*;

pub mod bus;
pub mod display;
pub mod laws;
pub mod model;
pub mod palette;
pub mod shift_register;

verus! {

/// The picture processing unit.
pub struct Ppu {
    /// Current VRAM address (15 bits).
    pub n_v: u16,
    pub ppuctrl: u8,
    pub ppumask: u8,
    pub ppustatus: u8,
    pub ppuscroll: u8,
    pub oamaddr: u8,
    pub oamdata: u8,
    pub x: u16,
    pub y: u16,
    pub bus: Bus,
    pub display: Display,
    pub palette: Palette,
    pub nmi_occurred: bool,
    pub ppudata_buffer: u8,
    pub shift_att_table: ShiftRegister,
    pub shift_pattern_l: ShiftRegister,
    pub shift_pattern_h: ShiftRegister,
    pub latch_nametable: u8,
    pub latch_attribute: u8,
    pub latch_background_pattern_high: u8,
    pub latch_background_pattern_low: u8,
    pub oam_primary: [u8; 256],
    pub oam_primary_n: u8,
    pub oam_primary_m: u8,
    pub oam_secondary_write_lock: bool,
    pub oam_temp_value: u8,
    pub oam_secondary: [u8; 32],
    pub oam_secondary_n: u8,
    pub oam_copying_sprite: bool,
    pub oam_overflow_reads_left: u8,
    pub oam_pattern_low: [u8; 8],
    pub oam_pattern_high: [u8; 8],
    pub oam_latches: [u8; 8],
    pub oam_counters: [u8; 8],
    pub oam_sprite_fetched_y: u8,
    pub oam_sprite_fetched_tile_index: u8,
    pub sprite_zero_next: bool,
    pub sprite_zero_current: bool,
    /// Temporary VRAM address (15 bits); the address of the top left tile
    /// on screen.
    pub n_t: u16,
    /// Fine X scroll (3 bits).
    pub n_x: u16,
    /// First or second write toggle.
    pub n_w: bool,
}

impl View for Ppu {
    type V = PpuView;

    open spec fn view(&self) -> PpuView {
        PpuView {
            n_v: self.n_v,
            ppuctrl: self.ppuctrl,
            ppumask: self.ppumask,
            ppustatus: self.ppustatus,
            ppuscroll: self.ppuscroll,
            oamaddr: self.oamaddr,
            oamdata: self.oamdata,
            x: self.x,
            y: self.y,
            bus: self.bus@,
            display: self.display@,
            nmi_occurred: self.nmi_occurred,
            ppudata_buffer: self.ppudata_buffer,
            shift_att_table: self.shift_att_table@,
            shift_pattern_l: self.shift_pattern_l@,
            shift_pattern_h: self.shift_pattern_h@,
            latch_nametable: self.latch_nametable,
            latch_attribute: self.latch_attribute,
            latch_background_pattern_high: self.latch_background_pattern_high,
            latch_background_pattern_low: self.latch_background_pattern_low,
            oam_primary: self.oam_primary@,
            oam_primary_n: self.oam_primary_n,
            oam_primary_m: self.oam_primary_m,
            oam_secondary_write_lock: self.oam_secondary_write_lock,
            oam_temp_value: self.oam_temp_value,
            oam_secondary: self.oam_secondary@,
            oam_secondary_n: self.oam_secondary_n,
            oam_copying_sprite: self.oam_copying_sprite,
            oam_overflow_reads_left: self.oam_overflow_reads_left,
            oam_pattern_low: self.oam_pattern_low@,
            oam_pattern_high: self.oam_pattern_high@,
            oam_latches: self.oam_latches@,
            oam_counters: self.oam_counters@,
            oam_sprite_fetched_y: self.oam_sprite_fetched_y,
            oam_sprite_fetched_tile_index: self.oam_sprite_fetched_tile_index,
            sprite_zero_next: self.sprite_zero_next,
            sprite_zero_current: self.sprite_zero_current,
            n_t: self.n_t,
            n_x: self.n_x,
            n_w: self.n_w,
        }
    }
}

/// The state of the picture unit when the console is switched on: every
/// register and memory zero but the status register, which reads 0xA0, and
/// the dot at the start of scanline 0.
pub open spec fn power_on(bus: crate::ppu::bus::BusView) -> PpuView {
    PpuView {
        n_v: 0,
        ppuctrl: 0,
        ppumask: 0,
        ppustatus: 0xA0,
        ppuscroll: 0,
        oamaddr: 0,
        oamdata: 0,
        x: 0,
        y: 0,
        bus,
        display: crate::ppu::display::DisplayView {
            width: 256,
            height: 240,
            array: Seq::new(184320, |i: int| 0u8),
        },
        nmi_occurred: false,
        ppudata_buffer: 0,
        shift_att_table: Seq::new(2, |i: int| 0u8),
        shift_pattern_l: Seq::new(2, |i: int| 0u8),
        shift_pattern_h: Seq::new(2, |i: int| 0u8),
        latch_nametable: 0,
        latch_attribute: 0,
        latch_background_pattern_high: 0,
        latch_background_pattern_low: 0,
        oam_primary: Seq::new(256, |i: int| 0u8),
        oam_primary_n: 0,
        oam_primary_m: 0,
        oam_secondary_write_lock: false,
        oam_temp_value: 0,
        oam_secondary: Seq::new(32, |i: int| 0u8),
        oam_secondary_n: 0,
        oam_copying_sprite: false,
        oam_overflow_reads_left: 0,
        oam_pattern_low: Seq::new(8, |i: int| 0u8),
        oam_pattern_high: Seq::new(8, |i: int| 0u8),
        oam_latches: Seq::new(8, |i: int| 0u8),
        oam_counters: Seq::new(8, |i: int| 0u8),
        oam_sprite_fetched_y: 0,
        oam_sprite_fetched_tile_index: 0,
        sprite_zero_next: false,
        sprite_zero_current: false,
        n_t: 0,
        n_x: 0,
        n_w: false,
    }
}

/// The byte with its bits in the opposite order.
pub fn reverse_bits(byte: u8) -> (turned: u8)
    ensures
        turned == reversed(byte),
{
    ((byte & 0x01) << 7) | ((byte & 0x02) << 5) | ((byte & 0x04) << 3) | ((byte & 0x08) << 1) | ((
    byte & 0x10) >> 1) | ((byte & 0x20) >> 3) | ((byte & 0x40) >> 5) | ((byte & 0x80) >> 7)
}

/// Bit `bit` of the reversed byte is bit `7 - bit` of the byte, and
/// reversing twice gives the byte back.
pub proof fn lemma_reversed(byte: u8, bit: u8)
    by (bit_vector)
    requires
        bit < 8,
    ensures
        (reversed(byte) >> bit) & 1 == (byte >> ((7 - bit) as u8)) & 1,
        reversed(reversed(byte)) == byte,
{
}

proof fn lemma_scroll_bits(v: u16)
    by (bit_vector)
    ensures
        (v & 0x001f) != 0x001f ==> v < 0xFFFF,
        ((v >> 12) & 0x0007) < 7 ==> v <= 0xEFFF,
        ((v >> 5) & 0x001f) <= 0x001f,
        0x2000 <= (0x2000 | (v & 0x0fff)) < 0x3000,
        0x2000 <= (0x23c0 | (v & 0x0c00) | ((v >> 4) & 0x38) | ((v >> 2) & 0x07)) < 0x3000,
        (v & 0x3FFF) < 0x4000,
        (v & 0x07) < 8,
{
}

proof fn lemma_pattern_address(ctrl: u8, tile: u8, row: u16)
    by (bit_vector)
    requires
        row < 8,
    ensures
        ((((ctrl & 0x10) as u16) << 8) | ((tile as u16) << 4) | row) < 0x2000,
        ((((ctrl & 0x10) as u16) << 8) | ((tile as u16) << 4) | row | 0x8) < 0x2000,
        ((((ctrl & 0x08) as u16) << 9) | ((tile as u16) << 4) | row) < 0x2000,
        ((((ctrl & 0x08) as u16) << 9) | ((tile as u16) << 4) | row | 0x8) < 0x2000,
{
}

proof fn lemma_pattern_value(low: u8, high: u8, shift: u8)
    by (bit_vector)
    requires
        shift < 8,
    ensures
        (((low >> shift) & 1) | (((high >> shift) & 1) << 1)) < 4,
{
}

proof fn lemma_attribute_shift(column: u16, row: u16)
    by (bit_vector)
    ensures
        (((column & 0x10) >> 3) | ((row & 0x10) >> 2)) < 8,
{
}

impl Ppu {
    pub open spec fn wf(&self) -> bool {
        &&& self@.wf()
        &&& self.bus.wf()
        &&& self.palette.wf()
    }

    /// The picture unit as it is when the console is switched on, with `bus`
    /// as its memory.
    pub fn new(bus: Bus) -> (ppu: Ppu)
        requires
            bus.wf(),
        ensures
            ppu.wf(),
            ppu@ == power_on(bus@),
    {
        let display = Display::default();
        let shift_att_table = ShiftRegister::new(2);
        let shift_pattern_l = ShiftRegister::new(2);
        let shift_pattern_h = ShiftRegister::new(2);
        let ppu = Ppu {
            n_v: 0,
            ppuctrl: 0,
            ppumask: 0,
            ppustatus: 0xA0,
            ppuscroll: 0,
            oamaddr: 0,
            oamdata: 0,
            x: 0,
            y: 0,
            bus,
            display,
            palette: Palette::new(),
            nmi_occurred: false,
            ppudata_buffer: 0,
            shift_att_table,
            shift_pattern_l,
            shift_pattern_h,
            latch_nametable: 0,
            latch_attribute: 0,
            latch_background_pattern_high: 0,
            latch_background_pattern_low: 0,
            oam_primary: [0; 256],
            oam_primary_n: 0,
            oam_primary_m: 0,
            oam_temp_value: 0,
            oam_secondary_write_lock: false,
            oam_secondary: [0; 32],
            oam_secondary_n: 0,
            oam_copying_sprite: false,
            oam_overflow_reads_left: 0,
            oam_pattern_low: [0; 8],
            oam_pattern_high: [0; 8],
            oam_latches: [0; 8],
            oam_counters: [0; 8],
            oam_sprite_fetched_y: 0,
            oam_sprite_fetched_tile_index: 0,
            sprite_zero_next: false,
            sprite_zero_current: false,
            n_t: 0,
            n_x: 0,
            n_w: false,
        };
        assert(ppu.oam_primary@ =~= Seq::new(256, |i: int| 0u8));
        assert(ppu.oam_secondary@ =~= Seq::new(32, |i: int| 0u8));
        assert(ppu.oam_pattern_low@ =~= Seq::new(8, |i: int| 0u8));
        assert(ppu.oam_pattern_high@ =~= Seq::new(8, |i: int| 0u8));
        assert(ppu.oam_latches@ =~= Seq::new(8, |i: int| 0u8));
        assert(ppu.oam_counters@ =~= Seq::new(8, |i: int| 0u8));
        ppu
    }

    fn get_coarse_x_scroll(&self) -> (coarse_x: u16)
        ensures
            coarse_x == self@.coarse_x(),
    {
        self.n_v & 0x001f
    }

    fn get_coarse_y_scroll(&self) -> (coarse_y: u16)
        ensures
            coarse_y == self@.coarse_y(),
            coarse_y <= 0x1f,
    {
        proof {
            lemma_scroll_bits(self.n_v);
        }
        (self.n_v >> 5) & 0x001f
    }

    fn get_fine_y_scroll(&self) -> (fine_y: u16)
        ensures
            fine_y == self@.fine_y(),
            fine_y < 8,
    {
        proof {
            lemma_scroll_bits(self.n_v >> 12);
        }
        (self.n_v >> 12) & 0x0007
    }

    fn coarse_x_increment(&mut self)
        ensures
            final(self)@ == old(self)@.coarse_x_increment(),
            final(self).bus == old(self).bus,
            final(self).palette == old(self).palette,
    {
        if self.get_coarse_x_scroll() == 0x001f {
            self.n_v &= !0x001f;
            self.n_v ^= 0x0400;
        } else {
            proof {
                lemma_scroll_bits(self.n_v);
            }
            self.n_v += 1;
        }
    }

    fn y_increment(&mut self)
        ensures
            final(self)@ == old(self)@.y_increment(),
            final(self).bus == old(self).bus,
            final(self).palette == old(self).palette,
    {
        if self.get_fine_y_scroll() < 7 {
            proof {
                lemma_scroll_bits(self.n_v);
            }
            self.n_v += 0x1000;
        } else {
            self.n_v &= !0x7000;
            let mut y: u16 = self.get_coarse_y_scroll();
            if y == 29 {
                y = 0;
                self.n_v ^= 0x0800;
            } else if y == 31 {
                y = 0;
            } else {
                y += 1;
            }
            self.n_v = (self.n_v & !0x03e0) | (y << 5);
        }
    }

    /// Returns the current tile address.
    fn get_tile_address(&self) -> (address: u16)
        ensures
            address == self@.tile_address(),
            0x2000 <= address < 0x3000,
    {
        proof {
            lemma_scroll_bits(self.n_v);
        }
        0x2000 | (self.n_v & 0x0fff)
    }

    /// Returns the current attribute address.
    /// NN 1111 YYY XXX
    /// || |||| ||| +++-- high 3 bits of coarse X (x/4)
    /// || |||| +++------ high 3 bits of coarse Y (y/4)
    /// || ++++---------- attribute offset (960 bytes)
    /// ++--------------- nametable select
    fn get_attribute_address(&self) -> (address: u16)
        ensures
            address == self@.attribute_address(),
            0x2000 <= address < 0x3000,
    {
        proof {
            lemma_scroll_bits(self.n_v);
        }
        0x23c0 | (self.n_v & 0x0c00) | ((self.n_v >> 4) & 0x38) | ((self.n_v >> 2) & 0x07)
    }

    fn rendering_enabled(&self) -> (enabled: bool)
        ensures
            enabled == self@.rendering_enabled(),
    {
        (self.ppumask & 0x18) > 0
    }

    /// A write to the scroll register (0x2005).
    pub fn write_ppuscroll(&mut self, value: u8)
        requires
            old(self).wf(),
        ensures
            final(self).wf(),
            final(self)@ == old(self)@.write_ppuscroll(value),
    {
        if !self.n_w {
            proof {
                lemma_scroll_bits(value as u16);
            }
            self.n_t &= 0xffe0;
            self.n_t |= value as u16 >> 3;
            self.n_x = value as u16 & 0x07;
        } else {
            self.n_t &= 0b0000_1100_0001_1111;
            self.n_t |= ((value as u16) & 0xf8) << 2;
            self.n_t |= ((value as u16) & 0x07) << 12;
        }
        self.n_w = !self.n_w;
    }

    /// A write to the address register (0x2006).
    pub fn write_ppuaddr(&mut self, value: u8)
        requires
            old(self).wf(),
        ensures
            final(self).wf(),
            final(self)@ == old(self)@.write_ppuaddr(value),
    {
        if !self.n_w {
            self.n_t &= 0x00ff;
            self.n_t |= ((value & 0x3f) as u16) << 8;
        } else {
            self.n_t &= 0xff00;
            self.n_t |= value as u16;
            self.n_v = self.n_t;
        }
        self.n_w = !self.n_w;
    }

    /// A read of the status register (0x2002): returns the register as it
    /// stood before the read cleared the vertical blank flag.
    pub fn read_ppustatus(&mut self) -> (status: u8)
        requires
            old(self).wf(),
        ensures
            final(self).wf(),
            status == old(self)@.ppustatus,
            final(self)@ == old(self)@.read_ppustatus(),
    {
        let status: u8 = self.ppustatus;
        self.clear_vblank();
        self.nmi_occurred = false;
        self.n_w = false;
        status
    }

    fn clear_vblank(&mut self)
        ensures
            final(self)@ == (PpuView { ppustatus: old(self)@.ppustatus & 0x7F, ..old(self)@ }),
            final(self).bus == old(self).bus,
            final(self).palette == old(self).palette,
    {
        self.ppustatus &= 0x7F;
    }

    fn set_vblank(&mut self)
        ensures
            final(self)@ == (PpuView {
                ppustatus: old(self)@.ppustatus | MASK_STATUS_VBLANK,
                ..old(self)@
            }),
            final(self).bus == old(self).bus,
            final(self).palette == old(self).palette,
    {
        self.ppustatus |= MASK_STATUS_VBLANK;
    }

    fn get_vram_address_increment(&self) -> (increment: u16)
        ensures
            increment == self@.vram_address_increment(),
    {
        if self.ppuctrl & 0x04 == 0x04 {
            32
        } else {
            1
        }
    }

    fn increment_vram_address(&mut self)
        ensures
            final(self)@ == (PpuView { n_v: old(self)@.next_vram_address(), ..old(self)@ }),
            final(self).bus == old(self).bus,
            final(self).palette == old(self).palette,
    {
        self.n_v = self.n_v.wrapping_add(self.get_vram_address_increment()) & 0x7FFF;
    }

    /// A read of the data register (0x2007).
    ///
    /// Reads are buffered: the buffer takes the byte at the current address
    /// and the byte it held before is returned. A palette address is the
    /// exception: the palette byte is returned at once, and the buffer takes
    /// the name table byte that lies 0x1000 below.
    pub fn read_ppudata(&mut self, cartridge: &Cartridge) -> (value: u8)
        requires
            old(self).wf(),
            cartridge.wf(),
        ensures
            final(self).wf(),
            value == old(self)@.ppudata_value(cartridge@),
            final(self)@ == old(self)@.read_ppudata(cartridge@),
    {
        proof {
            lemma_scroll_bits(self.n_v);
        }
        let address: u16 = self.n_v & 0x3FFF;
        let mut result: u8 = self.ppudata_buffer;
        self.ppudata_buffer = self.bus.read(cartridge, address);
        if address >= 0x3F00 {
            result = self.ppudata_buffer;
            self.ppudata_buffer = self.bus.read(cartridge, address - 0x1000);
        }
        self.increment_vram_address();
        result
    }

    /// A write to the data register (0x2007).
    pub fn write_ppudata(&mut self, cartridge: &mut Cartridge, value: u8)
        requires
            old(self).wf(),
            old(cartridge).wf(),
        ensures
            final(self).wf(),
            final(cartridge).wf(),
            final(self)@ == old(self)@.write_ppudata(old(cartridge)@, value),
            final(cartridge)@ == old(self)@.cartridge_after_write_ppudata(old(cartridge)@, value),
    {
        proof {
            lemma_scroll_bits(self.n_v);
        }
        let address: u16 = self.n_v & 0x3FFF;
        self.bus.write(cartridge, address, value);
        self.increment_vram_address();
    }

    /// A write to the control register (0x2000).
    pub fn write_ppuctrl(&mut self, value: u8)
        requires
            old(self).wf(),
        ensures
            final(self).wf(),
            final(self)@ == old(self)@.write_ppuctrl(value),
    {
        self.ppuctrl = value;
        self.n_t &= !0x0c00;
        self.n_t |= ((value & 0x03) as u16) << 10;
    }

    /// Samples the interrupt line, which drops the waiting interrupt.
    pub fn is_nmi(&mut self) -> (raised: bool)
        requires
            old(self).wf(),
        ensures
            final(self).wf(),
            raised == old(self)@.nmi_line(),
            final(self)@ == old(self)@.is_nmi(),
    {
        let nmi_occurred: bool = self.nmi_occurred;
        self.nmi_occurred = false;
        nmi_occurred && (self.ppuctrl & MASK_CONTROLLER_NMI) == MASK_CONTROLLER_NMI
    }

    /// Takes one byte of a sprite DMA.
    pub fn write_oamdma(&mut self, value: u8)
        requires
            old(self).wf(),
        ensures
            final(self).wf(),
            final(self)@ == old(self)@.write_oamdma(value),
    {
        self.oam_primary[self.oamaddr as usize] = value;
        self.oamaddr = self.oamaddr.wrapping_add(1);
    }

    /// A write to the sprite data register (0x2004).
    pub fn write_oamdata(&mut self, value: u8)
        requires
            old(self).wf(),
        ensures
            final(self).wf(),
            final(self)@ == old(self)@.write_oamdata(value),
    {
        self.oamdata = value;
        self.write_oamdma(value);
    }

    /// A read of the sprite data register (0x2004).
    pub fn read_oamdata(&self) -> (value: u8)
        requires
            self.wf(),
        ensures
            value == self@.read_oamdata(),
    {
        self.oam_primary[self.oamaddr as usize]
    }

    /// Moves the unit on by one dot.
    pub fn step(&mut self, cartridge: &Cartridge)
        requires
            old(self).wf(),
            cartridge.wf(),
        ensures
            final(self).wf(),
            final(self)@ == old(self)@.cycle(cartridge@),
    {
        self.cycle(cartridge);
    }

    /// One dot: the status flags of the dot, the work of its scanline, and
    /// the move to the next dot.
    pub fn cycle(&mut self, cartridge: &Cartridge)
        requires
            old(self).wf(),
            cartridge.wf(),
        ensures
            final(self).wf(),
            final(self)@ == old(self)@.cycle(cartridge@),
    {
        reveal(PpuView::cycle);
        self.update_status();
        self.scanline_work(cartridge);
        self.advance();
    }

    fn update_status(&mut self)
        requires
            old(self).wf(),
        ensures
            final(self).wf(),
            final(self)@ == old(self)@.update_status(),
    {
        if self.y == 241 && self.x == 1 {
            self.set_vblank();
        } else if self.y == 261 && self.x == 1 {
            self.ppustatus &= 0b0001_1111;
        }
    }

    fn scanline_work(&mut self, cartridge: &Cartridge)
        requires
            old(self).wf(),
            cartridge.wf(),
        ensures
            final(self).wf(),
            final(self)@ == old(self)@.scanline_work(cartridge@),
    {
        reveal(PpuView::scanline_work);
        if self.y <= 239 {
            // Visible scanlines
            self.visible_scanline();
            self.fetch_stuff(cartridge);
        } else if self.y == 240 {
            // Post-render scanline
        } else if self.y <= 260 {
            self.vertical_blanking_lines();
        } else {
            // Pre-render scanline
            self.fetch_stuff(cartridge);
            self.vertical_blanking_lines();
        }
    }

    fn advance(&mut self)
        requires
            old(self).wf(),
        ensures
            final(self).wf(),
            final(self)@ == old(self)@.advance(),
    {
        self.increase_x();
        if self.x == 0 {
            self.increase_y();
        }
    }

    fn increase_y(&mut self)
        requires
            old(self).wf(),
        ensures
            final(self).wf(),
            final(self)@ == (PpuView { y: old(self)@.next_y(), ..old(self)@ }),
    {
        self.y = self.next_y();
    }

    fn increase_x(&mut self)
        requires
            old(self).wf(),
        ensures
            final(self).wf(),
            final(self)@ == (PpuView { x: old(self)@.next_x(), ..old(self)@ }),
    {
        self.x = self.next_x();
    }

    fn next_x(&self) -> (x: u16)
        requires
            self.wf(),
        ensures
            x == self@.next_x(),
            x < 341,
    {
        self.mod_x(self.x + 1)
    }

    fn next_y(&self) -> (y: u16)
        requires
            self.wf(),
        ensures
            y == self@.next_y(),
            y < 262,
    {
        self.mod_y(self.y + 1)
    }

    fn mod_x(&self, value: u16) -> (x: u16)
        ensures
            x == value % 341,
    {
        value % 341
    }

    fn mod_y(&self, value: u16) -> (y: u16)
        ensures
            y == value % 262,
    {
        value % 262
    }

    fn vertical_blanking_lines(&mut self)
        requires
            old(self).wf(),
        ensures
            final(self).wf(),
            final(self)@ == old(self)@.vertical_blanking_lines(),
    {
        let vblank_start: bool = self.y == 241 && self.x == 1;
        let vblank_end: bool = self.y == 261 && self.x == 1;
        if vblank_start {
            self.nmi_occurred = (self.ppuctrl & MASK_CONTROLLER_NMI) == MASK_CONTROLLER_NMI;
            self.ppustatus |= MASK_STATUS_VBLANK;
        } else if vblank_end {
            self.nmi_occurred = false;
            self.ppustatus &= 0x7F;
        }
    }

    fn fetch_match(&mut self, cartridge: &Cartridge)
        requires
            old(self).wf(),
            cartridge.wf(),
            1 <= old(self).x,
        ensures
            final(self).wf(),
            final(self)@ == old(self)@.fetch_match(cartridge@),
    {
        if !self.rendering_enabled() {
            return ;
        }
        let step: u16 = ((self.x - 1) % 8) + 1;
        if step == 2 {
            self.fetch_nametable_byte(cartridge);
        } else if step == 4 {
            self.fetch_attribute_table_byte(cartridge);
        } else if step == 6 {
            self.load_low_background_tile_byte_latch(cartridge);
        } else if step == 8 {
            self.load_high_background_tile_byte_latch(cartridge);
            self.update_shift_registers_from_latches();
        }
    }

    fn update_shift_registers_from_latches(&mut self)
        requires
            old(self).wf(),
        ensures
            final(self).wf(),
            final(self)@ == old(self)@.update_shift_registers_from_latches(),
    {
        self.shift_att_table.shift_bytes();
        self.shift_att_table.set(self.latch_attribute);
        self.shift_pattern_l.set(self.latch_background_pattern_low);
        self.shift_pattern_h.set(self.latch_background_pattern_high);
    }

    fn shift_patterns(&mut self)
        requires
            old(self).wf(),
        ensures
            final(self).wf(),
            final(self)@ == old(self)@.shift_patterns(),
    {
        self.shift_pattern_l.shift_bits();
        self.shift_pattern_h.shift_bits();
    }

    fn fetch_stuff(&mut self, cartridge: &Cartridge)
        requires
            old(self).wf(),
            cartridge.wf(),
        ensures
            final(self).wf(),
            final(self)@ == old(self)@.fetch_stuff(cartridge@),
    {
        // Prepare the sprites of the next scanline.
        if 1 <= self.x && self.x <= 64 {
            self.clear_oam_secondary();
        } else if 65 <= self.x && self.x <= 256 {
            self.evaluate_sprites();
        } else if 257 <= self.x && self.x <= 320 {
            self.fetch_sprites(cartridge);
        }
        // Fetch the background.
        if (1 <= self.x && self.x <= 256) || (321 <= self.x && self.x <= 336) {
            self.shift_patterns();
            self.fetch_match(cartridge);
        } else if 257 <= self.x && self.x <= 320 {
            // The sprite address is held at 0 while the sprite tiles load.
            self.oamaddr = 0;
        }
        if self.rendering_enabled() {
            self.update_xy();
        }
    }

    fn update_xy(&mut self)
        requires
            old(self).wf(),
        ensures
            final(self).wf(),
            final(self)@ == old(self)@.update_xy(),
    {
        if self.x == 256 {
            // Inc. vert(v)
            self.y_increment();
            self.coarse_x_increment();
            return ;
        }
        if self.x == 257 {
            // hori(v) = hori(t)
            self.n_v = (self.n_v & !0x041f) | (self.n_t & 0x041f);
            return ;
        }
        if self.y == 261 && 280 <= self.x && self.x <= 304 {
            // vert(v) = vert(t)
            self.n_v = (self.n_v & !0x7be0) | (self.n_t & 0x7be0);
            return ;
        }
        if self.x % 8 == 0 && ((8 <= self.x && self.x <= 248) || (328 <= self.x && self.x <= 336)) {
            // Inc. hori(v)
            self.coarse_x_increment();
        }
    }

    fn clear_oam_secondary(&mut self)
        requires
            old(self).wf(),
            1 <= old(self).x <= 64,
        ensures
            final(self).wf(),
            final(self)@ == old(self)@.clear_oam_secondary(),
    {
        // Clear only on even cycles
        if self.x % 2 == 0 {
            self.oam_secondary[((self.x - 1) / 2) as usize] = 0xff;
        }
    }

    fn in_range(&self, sprite_y: u8) -> (yes: bool)
        requires
            self.wf(),
        ensures
            yes == self@.in_range(sprite_y),
    {
        let y: u16 = sprite_y as u16;
        let next_y: u16 = self.next_y();
        y + 1 <= next_y && next_y < y + 9
    }

    /// Evaluate sprites for next scanline
    fn evaluate_sprites(&mut self)
        requires
            old(self).wf(),
            65 <= old(self).x <= 256,
        ensures
            final(self).wf(),
            final(self)@ == old(self)@.evaluate_sprites(),
    {
        let odd_cycle: bool = self.x % 2 == 1;
        if self.x == 65 {
            // Init all oam values at first call in a scanline
            self.oam_primary_m = 0;
            self.oam_primary_n = 0;
            self.oam_secondary_n = 0;
            self.oam_secondary_write_lock = false;
            self.oam_copying_sprite = false;
            self.oam_overflow_reads_left = 0;
            self.sprite_zero_next = false;
        }
        if self.oam_primary_n == 64 {
            // Pretend to fail copying by doing nothing
            return ;
        }
        if odd_cycle {
            // Read from primary OAM
            self.oam_temp_value =
            self.oam_primary[(self.oam_primary_n as usize * 4 + self.oam_primary_m as usize)];
        } else {
            if self.oam_overflow_reads_left > 0 {
                self.oam_overflow_reads_left -= 1;
                return ;
            }
            if !self.oam_secondary_write_lock && self.oam_secondary_n < 8 {
                // Write to secondary OAM
                self.oam_secondary[(self.oam_secondary_n * 4 + self.oam_primary_m) as usize] =
                self.oam_temp_value;
            }
            if self.oam_copying_sprite {
                // Copy remaining elements of current sprite
                self.oam_primary_m += 1;
                if self.oam_primary_m == 4 {
                    self.oam_primary_m = 0;
                    self.oam_secondary_n += 1;
                    self.oam_primary_n += 1;
                    self.oam_copying_sprite = false;
                }
                return ;
            }
            if self.oam_secondary_n == 8 {
                // Secondary OAM full
                self.oam_secondary_write_lock = true;
                let y_in_range: bool = self.in_range(self.oam_temp_value);
                if y_in_range {
                    self.ppustatus |= MASK_STATUS_OVERFLOW;
                } else {
                    self.oam_primary_n += 1;
                }
                self.oam_primary_m += 1;
                if self.oam_primary_m == 4 {
                    self.oam_primary_m = 0;
                    if self.oam_primary_n < 64 {
                        self.oam_primary_n += 1;
                    }
                    self.oam_overflow_reads_left = 3;
                }
                return ;
            }
            let y_in_range: bool = self.in_range(self.oam_temp_value);
            if y_in_range {
                self.oam_copying_sprite = true;
                self.oam_primary_m += 1;
                if self.oam_primary_n == 0 {
                    self.sprite_zero_next = true;
                }
            } else {
                self.oam_primary_n += 1;
            }
        }
    }

    fn fetch_sprites(&mut self, cartridge: &Cartridge)
        requires
            old(self).wf(),
            cartridge.wf(),
            257 <= old(self).x <= 320,
        ensures
            final(self).wf(),
            final(self)@ == old(self)@.fetch_sprites(cartridge@),
    {
        let step: u16 = ((self.x - 257) % 8) + 1;
        let sprite_i: usize = ((self.x - 257) / 8) as usize;
        if step == 1 {
            // Read y-coordinate
            self.oam_sprite_fetched_y = self.oam_secondary[sprite_i * 4];
            if sprite_i == 0 {
                self.sprite_zero_current = self.sprite_zero_next;
            }
        } else if step == 2 {
            // Read tile index
            self.oam_sprite_fetched_tile_index = self.oam_secondary[sprite_i * 4 + 1];
        } else if step == 3 {
            // Read attributes
            self.oam_latches[sprite_i] = self.oam_secondary[sprite_i * 4 + 2];
        } else if step == 4 {
            // Read x-coordinate
            self.oam_counters[sprite_i] = self.oam_secondary[sprite_i * 4 + 3];
        } else if step == 5 {
            let tile_byte: u8 = self.fetch_sprite_tile_byte(cartridge, sprite_i, false);
            self.oam_pattern_low[sprite_i] = tile_byte;
        } else if step == 7 {
            let tile_byte: u8 = self.fetch_sprite_tile_byte(cartridge, sprite_i, true);
            self.oam_pattern_high[sprite_i] = tile_byte;
        }
    }

    fn fetch_sprite_tile_byte(&self, cartridge: &Cartridge, sprite_i: usize, high_plane: bool) -> (tile_byte: u8)
        requires
            self.wf(),
            cartridge.wf(),
            sprite_i < 8,
        ensures
            tile_byte == self@.sprite_tile_byte(cartridge@, sprite_i as int, high_plane),
    {
        let sprite_y: u8 = self.oam_sprite_fetched_y;
        if sprite_y >= 0xef {
            return 0;  // Hide the sprite
        }
        if !self.in_range(sprite_y) {
            return 0;
        }
        let row: u16 = self.next_y() - (sprite_y as u16 + 1);
        let flip_h: bool = self.oam_latches[sprite_i] & MASK_FLIP_SPRITE_HORIZONTALLY > 0;
        let flip_v: bool = self.oam_latches[sprite_i] & MASK_FLIP_SPRITE_VERTICALLY > 0;
        let tile_row: u16 = if flip_v {
            7 - row  // Flip vertically
        } else {
            row
        };
        let mut tile_byte: u8 = self.get_sprite_tile_byte(
            cartridge,
            self.oam_sprite_fetched_tile_index,
            tile_row,
            high_plane,
        );
        if flip_h {
            tile_byte = reverse_bits(tile_byte);  // Flip horizontally
        }
        tile_byte
    }

    /// The slot of the first sprite that is opaque at this dot; 8 if none is.
    fn find_opaque_sprite(&self) -> (slot: usize)
        requires
            self.wf(),
        ensures
            slot == self@.first_opaque_sprite(0),
            slot <= 8,
    {
        let mut i: usize = 0;
        while i < 8
            invariant
                i <= 8,
                self.wf(),
                self@.first_opaque_sprite(0) == self@.first_opaque_sprite(i as int),
            decreases 8 - i,
        {
            if self.oam_counters[i] == 0 {
                let pattern_high: u8 = self.oam_pattern_high[i] & 1;
                let pattern_low: u8 = self.oam_pattern_low[i] & 1;
                let pattern: u8 = (pattern_high << 1) | pattern_low;
                if pattern != 0 {
                    return i;
                }
            }
            i += 1;
        }
        8
    }

    fn in_left_column(&self) -> (yes: bool)
        ensures
            yes == self@.in_left_column(),
    {
        self.x <= 8
    }

    /// The palette index of the background at this dot.
    fn get_background_index(&self) -> (index: u16)
        requires
            self.wf(),
            1 <= self.x,
        ensures
            index == self@.background_index(),
    {
        let show_background: bool = (self.ppumask >> 3) & 1 == 1 && (!self.in_left_column() || (
        self.ppumask >> 1) & 1 == 1);
        if !show_background {
            return 0;
        }
        let pattern_l: u8 = (self.shift_pattern_l.get() >> self.n_x) & 1;
        let pattern_h: u8 = (self.shift_pattern_h.get() >> self.n_x) & 1;
        let color_number: u8 = (pattern_h << 1) | pattern_l;
        if color_number == 0 {
            return 0;
        }
        // attribute_shift is in format 0b0000_0rb0 where r is right and b is bottom.
        proof {
            lemma_attribute_shift((self.x - 1) as u16, self.y);
        }
        let attribute_shift: u16 = (((self.x - 1) & 0x10) >> 3) | ((self.y & 0x10) >> 2);
        let att_entry: u8 = self.shift_att_table.get();
        let palette_number: u8 = (att_entry >> attribute_shift) & 0x03;
        ((palette_number as u16) << 2) | color_number as u16
    }

    /// The palette index of the pixel at this dot, and whether sprite 0 and
    /// the background meet in it.
    fn get_pixel_index(&self) -> (pixel: (u16, bool))
        requires
            self.wf(),
            1 <= self.x,
        ensures
            pixel.0 == self@.pixel_index(),
            pixel.1 == self@.sprite_zero_hit(),
    {
        let show_sprites: bool = (self.ppumask >> 4) & 1 == 1 && (!self.in_left_column() || (
        self.ppumask >> 2) & 1 == 1);
        let slot: usize = if show_sprites {
            self.find_opaque_sprite()
        } else {
            8
        };
        let background: u16 = self.get_background_index();
        let hit: bool = self.sprite_zero_current && slot == 0 && background != 0;
        if slot < 8 {
            let attribute: u8 = self.oam_latches[slot];
            let hidden: bool = attribute & MASK_SPRITE_BEHIND_BACKGROUND != 0 && background != 0;
            if !hidden {
                let pattern_high: u8 = self.oam_pattern_high[slot] & 1;
                let pattern_low: u8 = self.oam_pattern_low[slot] & 1;
                let pattern: u8 = (pattern_high << 1) | pattern_low;
                return (0x10 | (((attribute & 0x03) as u16) << 2) | (pattern as u16), hit);
            }
        }
        (background, hit)
    }

    fn shift_sprite_patterns(&mut self)
        requires
            old(self).wf(),
        ensures
            final(self).wf(),
            final(self)@ == (PpuView {
                oam_pattern_high: old(self)@.sprite_patterns_shifted(old(self)@.oam_pattern_high),
                oam_pattern_low: old(self)@.sprite_patterns_shifted(old(self)@.oam_pattern_low),
                ..old(self)@
            }),
    {
        let mut i: usize = 0;
        while i < 8
            invariant
                i <= 8,
                self.wf(),
                self@ == (PpuView {
                    oam_pattern_high: self@.oam_pattern_high,
                    oam_pattern_low: self@.oam_pattern_low,
                    ..old(self)@
                }),
                forall|j: int|
                    0 <= j < i ==> self@.oam_pattern_high[j] == old(self)@.sprite_patterns_shifted(
                        old(self)@.oam_pattern_high,
                    )[j],
                forall|j: int|
                    0 <= j < i ==> self@.oam_pattern_low[j] == old(self)@.sprite_patterns_shifted(
                        old(self)@.oam_pattern_low,
                    )[j],
                forall|j: int| i <= j < 8 ==> self@.oam_pattern_high[j] == old(self)@.oam_pattern_high[j],
                forall|j: int| i <= j < 8 ==> self@.oam_pattern_low[j] == old(self)@.oam_pattern_low[j],
            decreases 8 - i,
        {
            if self.oam_counters[i] == 0 {
                let high: u8 = self.oam_pattern_high[i] >> 1;
                let low: u8 = self.oam_pattern_low[i] >> 1;
                self.oam_pattern_high[i] = high;
                self.oam_pattern_low[i] = low;
            }
            i += 1;
        }
        assert(self@.oam_pattern_high =~= old(self)@.sprite_patterns_shifted(
            old(self)@.oam_pattern_high,
        ));
        assert(self@.oam_pattern_low =~= old(self)@.sprite_patterns_shifted(
            old(self)@.oam_pattern_low,
        ));
    }

    fn step_sprite_counters(&mut self)
        requires
            old(self).wf(),
        ensures
            final(self).wf(),
            final(self)@ == (PpuView {
                oam_counters: old(self)@.sprite_counters_stepped(),
                ..old(self)@
            }),
    {
        let mut i: usize = 0;
        while i < 8
            invariant
                i <= 8,
                self.wf(),
                self@ == (PpuView { oam_counters: self@.oam_counters, ..old(self)@ }),
                forall|j: int|
                    0 <= j < i ==> self@.oam_counters[j] == old(self)@.sprite_counters_stepped()[j],
                forall|j: int| i <= j < 8 ==> self@.oam_counters[j] == old(self)@.oam_counters[j],
            decreases 8 - i,
        {
            if self.oam_counters[i] > 0 {
                let counter: u8 = self.oam_counters[i] - 1;
                self.oam_counters[i] = counter;
            }
            i += 1;
        }
        assert(self@.oam_counters =~= old(self)@.sprite_counters_stepped());
    }

    /// One dot of a visible scanline.
    pub fn visible_scanline(&mut self)
        requires
            old(self).wf(),
            old(self).y < 240,
        ensures
            final(self).wf(),
            final(self)@ == old(self)@.visible_scanline(),
    {
        if 1 <= self.x && self.x <= 256 {
            let pixel: (u16, bool) = self.get_pixel_index();
            let color_number: u8 = self.bus.read_color_number(pixel.0);
            let color: Color = self.palette.get_color((color_number % 0x40) as usize);
            self.display.set_pixel((self.x - 1) as usize, self.y as usize, color);
            if pixel.1 {
                self.ppustatus |= MASK_STATUS_SPRITE_ZERO_HIT;
            }
            // Shift sprite pattern bytes
            self.shift_sprite_patterns();
            // Decrease oam counters
            self.step_sprite_counters();
        }
    }

    fn fetch_nametable_byte(&mut self, cartridge: &Cartridge)
        requires
            old(self).wf(),
            cartridge.wf(),
        ensures
            final(self).wf(),
            final(self)@ == (PpuView {
                latch_nametable: old(self)@.bus.read(cartridge@, old(self)@.tile_address()),
                ..old(self)@
            }),
    {
        let address: u16 = self.get_tile_address();
        let nt_entry: u8 = self.bus.read(cartridge, address);
        self.latch_nametable = nt_entry;
    }

    fn fetch_attribute_table_byte(&mut self, cartridge: &Cartridge)
        requires
            old(self).wf(),
            cartridge.wf(),
        ensures
            final(self).wf(),
            final(self)@ == (PpuView {
                latch_attribute: old(self)@.bus.read(cartridge@, old(self)@.attribute_address()),
                ..old(self)@
            }),
    {
        let address: u16 = self.get_attribute_address();
        let att_entry: u8 = self.bus.read(cartridge, address);
        self.latch_attribute = att_entry;
    }

    /// Returns the address of the given tile in the given pattern table.
    ///
    /// Pattern table address should be either 0x0000 or 0x1000.
    /// Pattern index is anything from 0..=255.
    /// Resulting address should be of the form 0b000X_YYYY_YYYY_0000
    /// where X is the pattern table index and Y is the index of the pattern tile.
    fn get_pattern_table_tile_address(&self, pattern_table_address: u16, pattern_index: u8) -> (address: u16)
        ensures
            address == pattern_table_address | ((pattern_index as u16) << 4),
    {
        pattern_table_address | ((pattern_index as u16) << 4)
    }

    /// Returns the address of the current pattern table for background,
    /// which the control register picks.
    fn get_current_background_pattern_table_address(&self) -> (address: u16)
        ensures
            address == self@.background_pattern_table_address(),
    {
        ((self.ppuctrl & MASK_CONTROLLER_BACKGROUND_PATTERN_TABLE_ADDRESS) as u16) << 8
    }

    /// Returns the address of the current pattern table for sprites, which
    /// the control register picks.
    fn get_current_sprite_pattern_table_address(&self) -> (address: u16)
        ensures
            address == self@.sprite_pattern_table_address(),
    {
        ((self.ppuctrl & MASK_CONTROLLER_SPRITE_PATTERN_TABLE_ADDRESS) as u16) << 9
    }

    /// Returns the next background tile's pattern byte's address.
    fn get_next_background_pattern_tile_byte_address(&self) -> (address: u16)
        ensures
            address == self@.background_pattern_address(),
            address < 0x2000,
            (address | 0x8) < 0x2000,
    {
        let bg_pattern_table_address: u16 = self.get_current_background_pattern_table_address();
        let bg_pattern_tile_address: u16 = self.get_pattern_table_tile_address(
            bg_pattern_table_address,
            self.latch_nametable,
        );
        let pattern_fine_y_offset: u16 = self.get_fine_y_scroll();
        proof {
            lemma_pattern_address(self.ppuctrl, self.latch_nametable, pattern_fine_y_offset);
        }
        bg_pattern_tile_address | pattern_fine_y_offset
    }

    /// Loads the lower background pattern latch with next value.
    fn load_low_background_tile_byte_latch(&mut self, cartridge: &Cartridge)
        requires
            old(self).wf(),
            cartridge.wf(),
        ensures
            final(self).wf(),
            final(self)@ == (PpuView {
                latch_background_pattern_low: reversed(
                    old(self)@.bus.read(cartridge@, old(self)@.background_pattern_address()),
                ),
                ..old(self)@
            }),
    {
        let address: u16 = self.get_next_background_pattern_tile_byte_address();
        self.latch_background_pattern_low = reverse_bits(self.bus.read(cartridge, address));
    }

    /// Loads the higher background pattern latch with next value.
    fn load_high_background_tile_byte_latch(&mut self, cartridge: &Cartridge)
        requires
            old(self).wf(),
            cartridge.wf(),
        ensures
            final(self).wf(),
            final(self)@ == (PpuView {
                latch_background_pattern_high: reversed(
                    old(self)@.bus.read(cartridge@, old(self)@.background_pattern_address() | 0x8),
                ),
                ..old(self)@
            }),
    {
        let address: u16 = self.get_next_background_pattern_tile_byte_address() | 0x8;
        self.latch_background_pattern_high = reverse_bits(self.bus.read(cartridge, address));
    }

    /// Returns one row of one plane of a sprite tile from the current
    /// pattern table of the sprites.
    fn get_sprite_tile_byte(&self, cartridge: &Cartridge, pattern_index: u8, tile_row: u16, high_plane: bool) -> (tile_byte: u8)
        requires
            self.wf(),
            cartridge.wf(),
            tile_row < 8,
        ensures
            tile_byte == self@.sprite_pattern_byte(cartridge@, pattern_index, tile_row, high_plane),
    {
        let sprite_pattern_table_address: u16 = self.get_current_sprite_pattern_table_address();
        let sprite_address: u16 = self.get_pattern_table_tile_address(
            sprite_pattern_table_address,
            pattern_index,
        );
        proof {
            lemma_pattern_address(self.ppuctrl, pattern_index, tile_row);
        }
        let mut sprite_tile_byte_address: u16 = sprite_address | tile_row;
        if high_plane {
            sprite_tile_byte_address |= 0x8;
        }
        reverse_bits(self.bus.read(cartridge, sprite_tile_byte_address))
    }

    /// Draws the 256 tiles of the pattern table at `pattern_table_address`
    /// into `display`, 16 in a row.
    ///
    /// A tile is an 8 by 8 matrix of pattern values from 0 to 3. No palette
    /// applies here, so each value is shown as a shade of grey.
    pub fn load_pattern_table_tiles_to_display(
        &self,
        cartridge: &Cartridge,
        pattern_table_address: u16,
        display: &mut Display,
    )
        requires
            self.wf(),
            cartridge.wf(),
            pattern_table_address == 0x0000 || pattern_table_address == 0x1000,
            old(display).wf(),
            old(display)@.width == 128,
            old(display)@.height == 128,
        ensures
            final(display).wf(),
            final(display)@.width == 128,
            final(display)@.height == 128,
            forall|x: usize, y: usize|
                x < 128 && y < 128 ==> #[trigger] final(display)@.pixel(x, y) == greyscale_table()[self@.pattern_pixel(
                    cartridge@,
                    pattern_table_address,
                    x as int,
                    y as int,
                ) as int],
    {
        let mut row: usize = 0;
        while row < 128
            invariant
                row <= 128,
                self.wf(),
                cartridge.wf(),
                pattern_table_address == 0x0000 || pattern_table_address == 0x1000,
                display.wf(),
                display@.width == 128,
                display@.height == 128,
                forall|x: usize, y: usize|
                    x < 128 && y < row ==> #[trigger] display@.pixel(x, y) == greyscale_table()[self@.pattern_pixel(
                        cartridge@,
                        pattern_table_address,
                        x as int,
                        y as int,
                    ) as int],
            decreases 128 - row,
        {
            let mut tile_col: usize = 0;
            while tile_col < 16
                invariant
                    row < 128,
                    tile_col <= 16,
                    self.wf(),
                    cartridge.wf(),
                    pattern_table_address == 0x0000 || pattern_table_address == 0x1000,
                    display.wf(),
                    display@.width == 128,
                    display@.height == 128,
                    forall|x: usize, y: usize|
                        x < 128 && (y < row || (y == row && x < tile_col * 8))
                            ==> #[trigger] display@.pixel(x, y) == greyscale_table()[self@.pattern_pixel(
                            cartridge@,
                            pattern_table_address,
                            x as int,
                            y as int,
                        ) as int],
                decreases 16 - tile_col,
            {
                let pattern_address: u16 = pattern_table_address + ((row / 8) * 256 + tile_col
                    * 16 + row % 8) as u16;
                let pattern_low: u8 = self.bus.read(cartridge, pattern_address);
                let pattern_high: u8 = self.bus.read(cartridge, pattern_address + 8);
                let mut x: usize = 0;
                while x < 8
                    invariant
                        row < 128,
                        tile_col < 16,
                        x <= 8,
                        pattern_address == pattern_table_address + (row / 8) * 256 + tile_col
                            * 16 + row % 8,
                        pattern_low == self@.bus.read(cartridge@, pattern_address),
                        pattern_high == self@.bus.read(cartridge@, (pattern_address + 8) as u16),
                        display.wf(),
                        display@.width == 128,
                        display@.height == 128,
                        forall|x2: usize, y2: usize|
                            x2 < 128 && (y2 < row || (y2 == row && x2 < tile_col * 8 + x))
                                ==> #[trigger] display@.pixel(x2, y2) == greyscale_table()[self@.pattern_pixel(
                                cartridge@,
                                pattern_table_address,
                                x2 as int,
                                y2 as int,
                            ) as int],
                    decreases 8 - x,
                {
                    let shift: u8 = (7 - x) as u8;
                    proof {
                        lemma_pattern_value(pattern_low, pattern_high, shift);
                        lemma_set_then_get(
                            display@,
                            (tile_col * 8 + x) as usize,
                            row,
                            greyscale_table()[(((pattern_low >> shift) & 1) | (((pattern_high
                                >> shift) & 1) << 1)) as int],
                        );
                    }
                    let low_bit: u8 = (pattern_low >> shift) & 1;
                    let high_bit: u8 = (pattern_high >> shift) & 1;
                    let pattern: u8 = low_bit | (high_bit << 1);
                    let ghost before = display@;
                    display.set_pixel(tile_col * 8 + x, row, greyscale(pattern));
                    proof {
                        assert((tile_col * 8 + x) / 8 == tile_col);
                        assert((tile_col * 8 + x) % 8 == x);
                        assert(pattern == self@.pattern_pixel(
                            cartridge@,
                            pattern_table_address,
                            (tile_col * 8 + x) as int,
                            row as int,
                        ));
                        assert forall|x2: usize, y2: usize|
                            x2 < 128 && (y2 < row || (y2 == row && x2 < tile_col * 8 + x + 1))
                                implies #[trigger] display@.pixel(x2, y2) == greyscale_table()[self@.pattern_pixel(
                                cartridge@,
                                pattern_table_address,
                                x2 as int,
                                y2 as int,
                            ) as int] by {
                            if x2 == tile_col * 8 + x && y2 == row {
                            } else {
                                assert(before.holds(x2, y2));
                                assert(before.offset(x2, y2) != before.offset(
                                    (tile_col * 8 + x) as usize,
                                    row,
                                ));
                                assert(display@.pixel(x2, y2) == before.pixel(x2, y2));
                            }
                        }
                    }
                    x += 1;
                }
                tile_col += 1;
            }
            row += 1;
        }
    }

    fn get_current_palette(&self) -> (colors: Vec<Color>)
        requires
            self.wf(),
        ensures
            colors@ == self@.current_palette(),
    {
        let mut colors: Vec<Color> = Vec::new();
        let mut color_index: usize = 0;
        while color_index < 32
            invariant
                color_index <= 32,
                self.wf(),
                colors@.len() == color_index,
                forall|i: int| 0 <= i < color_index ==> colors@[i] == self@.current_palette()[i],
            decreases 32 - color_index,
        {
            let palette_number: u16 = (color_index / 8) as u16;
            let color_number: u16 = (color_index % 4) as u16;
            let color_address: u16 = (palette_number << 2) | color_number;
            let color_number_in_big_palette: u8 = self.bus.read_color_number(color_address);
            let color: Color = self.palette.get_color((color_number_in_big_palette % 0x40) as usize);
            colors.push(color);
            color_index += 1;
        }
        assert(colors@ =~= self@.current_palette());
        colors
    }

    /// The colors of the palette viewer as bytes: red, green and blue of
    /// each of its 32 colors.
    pub fn get_current_palettes_raw(&self) -> (bytes: Vec<u8>)
        requires
            self.wf(),
        ensures
            bytes@ == self@.current_palettes_raw(),
    {
        let colors: Vec<Color> = self.get_current_palette();
        let mut bytes: Vec<u8> = Vec::new();
        let mut i: usize = 0;
        while i < 32
            invariant
                i <= 32,
                colors@ == self@.current_palette(),
                bytes@.len() == 3 * i,
                forall|k: int| 0 <= k < 3 * i ==> bytes@[k] == self@.current_palettes_raw()[k],
            decreases 32 - i,
        {
            let color: Color = colors[i];
            bytes.push(color.r);
            bytes.push(color.g);
            bytes.push(color.b);
            i += 1;
        }
        assert(bytes@ =~= self@.current_palettes_raw());
        bytes
    }
}

} // verus!
