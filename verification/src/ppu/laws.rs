use crate::cartridge::CartridgeView;
use crate::ppu::model::PpuView;
use vstd::prelude::*;

verus! {

/// The sprite work of a dot leaves the dot where it is.
pub proof fn lemma_prepare_sprites_keeps_dot(unit: PpuView, cartridge: CartridgeView)
    ensures
        unit.prepare_sprites(cartridge).x == unit.x,
        unit.prepare_sprites(cartridge).y == unit.y,
{
}

/// The fetches of a dot leave the dot where it is.
pub proof fn lemma_fetch_stuff_keeps_dot(unit: PpuView, cartridge: CartridgeView)
    ensures
        unit.fetch_stuff(cartridge).x == unit.x,
        unit.fetch_stuff(cartridge).y == unit.y,
{
    lemma_prepare_sprites_keeps_dot(unit, cartridge);
}

/// The work of a scanline leaves the dot where it is.
pub proof fn lemma_scanline_work_keeps_dot(unit: PpuView, cartridge: CartridgeView)
    ensures
        unit.scanline_work(cartridge).x == unit.x,
        unit.scanline_work(cartridge).y == unit.y,
{
    reveal(PpuView::scanline_work);
    lemma_fetch_stuff_keeps_dot(unit, cartridge);
    lemma_fetch_stuff_keeps_dot(unit.visible_scanline(), cartridge);
}

/// One cycle moves the dot by one place: to the next dot of the scanline,
/// from the last dot of a scanline to the first of the next, and from the
/// end of scanline 261 to the start of scanline 0. The dot so stays inside
/// the frame of 341 by 262.
pub proof fn lemma_cycle_moves_dot(unit: PpuView, cartridge: CartridgeView)
    requires
        unit.x < 341,
        unit.y < 262,
    ensures
        unit.cycle(cartridge).x == (unit.x + 1) % 341,
        unit.cycle(cartridge).y == (if unit.x == 340 {
            (unit.y + 1) % 262
        } else {
            unit.y as int
        }),
        unit.cycle(cartridge).x < 341,
        unit.cycle(cartridge).y < 262,
{
    reveal(PpuView::cycle);
    lemma_scanline_work_keeps_dot(unit.update_status(), cartridge);
}

proof fn lemma_status_bits(status: u8)
    by (bit_vector)
    ensures
        (status & 0x7F) & 0x80 == 0,
{
}

proof fn lemma_bus_address(v: u16)
    by (bit_vector)
    ensures
        v & 0x3FFF < 0x4000,
{
}

/// After two reads of the status register in a row the write toggle is
/// down and the vertical blank flag is clear, and the second read already
/// returned a byte without that flag.
pub proof fn lemma_two_status_reads(unit: PpuView)
    ensures
        unit.read_ppustatus().ppustatus & 0x80 == 0,
        !unit.read_ppustatus().read_ppustatus().n_w,
        unit.read_ppustatus().read_ppustatus().ppustatus & 0x80 == 0,
{
    lemma_status_bits(unit.ppustatus);
    lemma_status_bits(unit.ppustatus & 0x7F);
}

proof fn lemma_address_bits(t: u16, high: u8, low: u8)
    by (bit_vector)
    ensures
        ((((t & 0x00ff) | (((high & 0x3f) as u16) << 8)) & 0xff00) | (low as u16)) & 0x3FFF == (((
        high & 0x3f) as u16) << 8) | (low as u16),
{
}

/// With the write toggle down, two writes to the address register point V
/// at the address whose high six bits and low eight bits they gave. A read
/// of the data register then returns the byte at a palette address at once.
/// Below the palette the first read only fills the buffer with the byte at
/// the address, and the read after it returns that byte, unless V has moved
/// on into the palette.
pub proof fn lemma_address_then_data(
    unit: PpuView,
    cartridge: CartridgeView,
    high: u8,
    low: u8,
)
    requires
        !unit.n_w,
    ensures
        ({
            let pointed = unit.write_ppuaddr(high).write_ppuaddr(low);
            let address = pointed.vram_address();
            let stored = unit.bus.read(cartridge, address);
            &&& address == (((high & 0x3f) as u16) << 8) | (low as u16)
            &&& address >= 0x3F00 ==> pointed.ppudata_value(cartridge) == stored
            &&& address < 0x3F00 ==> pointed.read_ppudata(cartridge).ppudata_buffer == stored
            &&& address < 0x3F00 && pointed.read_ppudata(cartridge).vram_address() < 0x3F00
                ==> pointed.read_ppudata(cartridge).ppudata_value(cartridge) == stored
        }),
{
    lemma_address_bits(unit.n_t, high, low);
}

/// A byte written through the data register is what the bus holds at the
/// address that V pointed at, from 0x2000 on.
pub proof fn lemma_data_write_lands(unit: PpuView, cartridge: CartridgeView, value: u8)
    requires
        unit.wf(),
        unit.vram_address() >= 0x2000,
    ensures
        unit.write_ppudata(cartridge, value).bus.read(cartridge, unit.vram_address()) == value,
{
    lemma_bus_address(unit.n_v);
}

} // verus!
