use crate::cartridge::{nametable_cell, Cartridge, CartridgeView};
use crate::cpu::ram::Ram;
use vstd::prelude::*;

verus! {

/// The memory that the picture unit reaches over its 14 bit address bus,
/// apart from the cartridge: 2 KiB for the name tables and 32 palette bytes.
pub struct Bus {
    pub vram: Ram,
    pub palette_ram: Ram,
}

/// The mathematical content of a [`Bus`].
pub struct BusView {
    pub vram: Seq<u8>,
    pub palette_ram: Seq<u8>,
}

impl View for Bus {
    type V = BusView;

    open spec fn view(&self) -> BusView {
        BusView { vram: self.vram@, palette_ram: self.palette_ram@ }
    }
}

/// The palette cell that a palette address stands for. Addresses repeat
/// every 32 bytes, and the entries 0x10, 0x14, 0x18 and 0x1C are the entries
/// 0x00, 0x04, 0x08 and 0x0C over again.
pub open spec fn palette_cell(address: u16) -> u16 {
    let folded = address % 0x20;
    if folded >= 0x10 && folded % 4 == 0 {
        (folded - 0x10) as u16
    } else {
        folded
    }
}

/// The palette entry that a pixel with the palette index `index` shows:
/// an index whose low two bits are zero is transparent and shows the
/// backdrop, entry 0.
pub open spec fn backdrop_cell(index: u16) -> u16 {
    if index % 4 == 0 {
        0
    } else {
        index
    }
}

impl BusView {
    pub open spec fn wf(self) -> bool {
        self.vram.len() == 0x0800 && self.palette_ram.len() == 0x20
    }

    /// The byte at `address` (below 0x4000): pattern tables below 0x2000,
    /// name tables up to 0x2FFF and once more up to 0x3EFF, palette from
    /// 0x3F00 on.
    pub open spec fn read(self, cartridge: CartridgeView, address: u16) -> u8 {
        if address < 0x2000 {
            cartridge.pattern_byte(address)
        } else if address < 0x3000 {
            self.vram[nametable_cell(cartridge.mirroring(), address)]
        } else if address < 0x3F00 {
            self.vram[nametable_cell(cartridge.mirroring(), (address - 0x1000) as u16)]
        } else {
            self.palette_ram[palette_cell((address - 0x3F00) as u16) as int]
        }
    }

    /// The memory of the bus after `value` was written to `address` (below
    /// 0x4000). A write below 0x2000 goes to the cartridge and leaves the
    /// bus as it is.
    pub open spec fn write(self, cartridge: CartridgeView, address: u16, value: u8) -> BusView {
        if address < 0x2000 {
            self
        } else if address < 0x3000 {
            BusView {
                vram: self.vram.update(nametable_cell(cartridge.mirroring(), address), value),
                ..self
            }
        } else if address < 0x3F00 {
            BusView {
                vram: self.vram.update(
                    nametable_cell(cartridge.mirroring(), (address - 0x1000) as u16),
                    value,
                ),
                ..self
            }
        } else {
            BusView {
                palette_ram: self.palette_ram.update(
                    palette_cell((address - 0x3F00) as u16) as int,
                    value,
                ),
                ..self
            }
        }
    }

    /// The color number that a pixel with the palette index `index` (below
    /// 0x20) shows.
    pub open spec fn color_number(self, index: u16) -> u8 {
        self.palette_ram[palette_cell(backdrop_cell(index)) as int]
    }
}

/// The cartridge after `value` was written to `address` on the picture
/// unit's bus: only a write below 0x2000 reaches it.
pub open spec fn cartridge_after_write(cartridge: CartridgeView, address: u16, value: u8)
    -> CartridgeView {
    if address < 0x2000 {
        cartridge.with_pattern_byte(address, value)
    } else {
        cartridge
    }
}

impl Bus {
    pub open spec fn wf(&self) -> bool {
        &&& self.vram.wf()
        &&& self.vram.size == 0x0800
        &&& self.palette_ram.wf()
        &&& self.palette_ram.size == 0x20
    }

    /// Zeroed name table and palette memory.
    pub fn new() -> (bus: Bus)
        ensures
            bus.wf(),
            bus@.vram == Seq::new(0x0800, |i: int| 0u8),
            bus@.palette_ram == Seq::new(0x20, |i: int| 0u8),
    {
        Bus { vram: Ram::default(), palette_ram: Ram::new(0x20) }
    }

    pub fn read(&self, cartridge: &Cartridge, address: u16) -> (value: u8)
        requires
            self.wf(),
            cartridge.wf(),
            address < 0x4000,
        ensures
            value == self@.read(cartridge@, address),
    {
        if address < 0x2000 {
            cartridge.read_from_pattern_table(address)
        } else if address < 0x3000 {
            cartridge.read_from_nametable(address, &self.vram)
        } else if address < 0x3F00 {
            cartridge.read_from_nametable(address - 0x1000, &self.vram)
        } else {
            self.read_from_palette_ram(address - 0x3F00)
        }
    }

    pub fn write(&mut self, cartridge: &mut Cartridge, address: u16, value: u8)
        requires
            old(self).wf(),
            old(cartridge).wf(),
            address < 0x4000,
        ensures
            final(self).wf(),
            final(cartridge).wf(),
            final(self)@ == old(self)@.write(old(cartridge)@, address, value),
            final(cartridge)@ == cartridge_after_write(old(cartridge)@, address, value),
    {
        if address < 0x2000 {
            cartridge.write_to_pattern_table(address, value);
        } else if address < 0x3000 {
            self.write_name_table(cartridge, address, value);
        } else if address < 0x3F00 {
            self.write_name_table(cartridge, address - 0x1000, value);
        } else {
            self.write_to_palette_ram(address - 0x3F00, value);
        }
    }

    fn write_to_palette_ram(&mut self, address: u16, value: u8)
        requires
            old(self).wf(),
        ensures
            final(self).wf(),
            final(self)@ == (BusView {
                palette_ram: old(self)@.palette_ram.update(palette_cell(address) as int, value),
                ..old(self)@
            }),
    {
        let mirrored_address: u16 = self.mirror_palette_ram_address(address);
        self.palette_ram.write(mirrored_address as usize, value);
    }

    fn read_from_palette_ram(&self, address: u16) -> (value: u8)
        requires
            self.wf(),
        ensures
            value == self@.palette_ram[palette_cell(address) as int],
    {
        let mirrored_address: u16 = self.mirror_palette_ram_address(address);
        self.palette_ram.read(mirrored_address as usize)
    }

    fn mirror_palette_ram_address(&self, address: u16) -> (cell: u16)
        ensures
            cell == palette_cell(address),
            cell < 0x20,
    {
        let mirrored_address: u16 = address % 0x20;
        if mirrored_address == 0x10 || mirrored_address == 0x14 || mirrored_address == 0x18
            || mirrored_address == 0x1C {
            mirrored_address - 0x10
        } else {
            mirrored_address
        }
    }

    fn backdrop_address(&self, address: u16) -> (cell: u16)
        ensures
            cell == backdrop_cell(address),
    {
        if address % 4 == 0 {
            0x00
        } else {
            address
        }
    }

    /// The color number that a pixel with the palette index `index` shows.
    pub fn read_color_number(&self, index: u16) -> (value: u8)
        requires
            self.wf(),
        ensures
            value == self@.color_number(index),
    {
        let backdrop_checked_address: u16 = self.backdrop_address(index);
        self.read_from_palette_ram(backdrop_checked_address)
    }

    fn write_name_table(&mut self, cartridge: &Cartridge, address: u16, value: u8)
        requires
            old(self).wf(),
            cartridge.wf(),
            0x2000 <= address <= 0x2FFF,
        ensures
            final(self).wf(),
            final(self)@ == (BusView {
                vram: old(self)@.vram.update(
                    nametable_cell(cartridge@.mirroring(), address),
                    value,
                ),
                ..old(self)@
            }),
    {
        cartridge.write_to_nametable(address, &mut self.vram, value);
    }

    /// Writes straight into the name table memory, past any mirroring.
    pub fn write_to_vram(&mut self, address: u16, value: u8)
        requires
            old(self).wf(),
            address < 0x0800,
        ensures
            final(self).wf(),
            final(self)@ == (BusView {
                vram: old(self)@.vram.update(address as int, value),
                ..old(self)@
            }),
    {
        self.vram.write(address as usize, value);
    }

    /// Reads straight from the name table memory, past any mirroring.
    pub fn read_from_vram(&mut self, address: u16) -> (value: u8)
        requires
            old(self).wf(),
            address < 0x0800,
        ensures
            *final(self) == *old(self),
            value == old(self)@.vram[address as int],
    {
        self.vram.read(address as usize)
    }
}

/// The palette entries 0x3F10, 0x3F14, 0x3F18 and 0x3F1C read as the entries
/// 0x3F00, 0x3F04, 0x3F08 and 0x3F0C do, whatever the memory holds.
pub proof fn lemma_palette_mirror_reads(bus: BusView, cartridge: CartridgeView, address: u16)
    requires
        address == 0x3F10 || address == 0x3F14 || address == 0x3F18 || address == 0x3F1C,
    ensures
        bus.read(cartridge, address) == bus.read(cartridge, (address - 0x10) as u16),
{
}

/// The name table cell that an address from 0x2000 to 0x3EFF stands for:
/// the addresses from 0x3000 on are those from 0x2000 on over again.
pub open spec fn vram_cell(cartridge: CartridgeView, address: u16) -> int {
    if address < 0x3000 {
        nametable_cell(cartridge.mirroring(), address)
    } else {
        nametable_cell(cartridge.mirroring(), (address - 0x1000) as u16)
    }
}

/// A byte written to a name table address reads back from that address and
/// from every address that stands for the same cell.
pub proof fn lemma_nametable_write_then_read(
    bus: BusView,
    cartridge: CartridgeView,
    address: u16,
    other: u16,
    value: u8,
)
    requires
        bus.wf(),
        0x2000 <= address < 0x3F00,
        0x2000 <= other < 0x3F00,
        vram_cell(cartridge, address) == vram_cell(cartridge, other),
    ensures
        bus.write(cartridge, address, value).read(cartridge, other) == value,
{
}

/// A byte written to a palette address reads back from that address and
/// from every address that stands for the same cell.
pub proof fn lemma_palette_write_then_read(
    bus: BusView,
    cartridge: CartridgeView,
    address: u16,
    other: u16,
    value: u8,
)
    requires
        bus.wf(),
        0x3F00 <= address < 0x4000,
        0x3F00 <= other < 0x4000,
        palette_cell((address - 0x3F00) as u16) == palette_cell((other - 0x3F00) as u16),
    ensures
        bus.write(cartridge, address, value).read(cartridge, other) == value,
{
}

} // verus!
