use crate::cpu::ram::Ram;
use vstd::prelude::*;

verus! {

pub const HEADER_SIZE: usize = 16;

pub const PRG_ROM_PAGE_SIZE: usize = 0x4000;

pub const CHR_ROM_PAGE_SIZE: usize = 0x2000;

/// How the four logical name tables fold onto the two physical ones.
#[derive(Clone, Copy, Debug, PartialEq, Eq, Structural)]
pub enum NametableMirroring {
    Vertical,
    Horizontal,
}

/// Why a ROM image was turned down.
#[derive(Clone, Copy, Debug, PartialEq, Eq, Structural)]
pub enum RomError {
    /// The image does not start with `NES` and the byte 0x1A.
    InvalidMagic,
    /// The header names a mapper other than 0.
    UnsupportedMapper,
    /// The image ends before the header or before the banks that the header
    /// announces.
    Truncated,
}

/// A game cartridge with the fixed bank layout of mapper 0.
pub struct Cartridge {
    pub mem: Vec<u8>,
    pub prg_rom: Vec<u8>,
    pub chr_rom: Vec<u8>,
    pub chr_ram: Vec<u8>,
    pub ines_format: bool,
    pub nes20_format: bool,
    pub prg_rom_pages: usize,
    pub chr_rom_pages: usize,
    pub mapper_number: u8,
}

/// The mathematical content of a [`Cartridge`].
pub struct CartridgeView {
    pub mem: Seq<u8>,
    pub prg_rom: Seq<u8>,
    pub chr_rom: Seq<u8>,
    pub chr_ram: Seq<u8>,
    pub ines_format: bool,
    pub nes20_format: bool,
    pub prg_rom_pages: usize,
    pub chr_rom_pages: usize,
    pub mapper_number: u8,
}

impl View for Cartridge {
    type V = CartridgeView;

    open spec fn view(&self) -> CartridgeView {
        CartridgeView {
            mem: self.mem@,
            prg_rom: self.prg_rom@,
            chr_rom: self.chr_rom@,
            chr_ram: self.chr_ram@,
            ines_format: self.ines_format,
            nes20_format: self.nes20_format,
            prg_rom_pages: self.prg_rom_pages,
            chr_rom_pages: self.chr_rom_pages,
            mapper_number: self.mapper_number,
        }
    }
}

/// Whether the image starts with the four identification bytes.
pub open spec fn has_magic(image: Seq<u8>) -> bool {
    image.len() >= 4 && image[0] == 0x4E && image[1] == 0x45 && image[2] == 0x53 && image[3]
        == 0x1A
}

/// The mapper number of a header: the high nibble of byte 6 as its low
/// nibble, the high nibble of byte 7 as its high nibble.
pub open spec fn mapper_of(image: Seq<u8>) -> u8 {
    (image[6] >> 4) | (image[7] & 0xF0)
}

/// Where the program banks of an image end.
pub open spec fn prg_end(image: Seq<u8>) -> int {
    HEADER_SIZE + PRG_ROM_PAGE_SIZE * (image[4] as int)
}

/// Where the character banks of an image end.
pub open spec fn chr_end(image: Seq<u8>) -> int {
    prg_end(image) + CHR_ROM_PAGE_SIZE * (image[5] as int)
}

/// The reason for which an image is turned down, if there is one.
pub open spec fn load_error(image: Seq<u8>) -> Option<RomError> {
    if !has_magic(image) {
        Some(RomError::InvalidMagic)
    } else if image.len() < HEADER_SIZE {
        Some(RomError::Truncated)
    } else if mapper_of(image) != 0 {
        Some(RomError::UnsupportedMapper)
    } else if image.len() < chr_end(image) {
        Some(RomError::Truncated)
    } else {
        None
    }
}

/// The cartridge that an image without fault describes.
pub open spec fn loaded(image: Seq<u8>) -> CartridgeView {
    CartridgeView {
        mem: image,
        prg_rom: image.subrange(HEADER_SIZE as int, prg_end(image)),
        chr_rom: image.subrange(prg_end(image), chr_end(image)),
        chr_ram: Seq::new(CHR_ROM_PAGE_SIZE as nat, |i: int| 0u8),
        ines_format: true,
        nes20_format: (image[7] & 0x0C) == 0x08,
        prg_rom_pages: image[4] as usize,
        chr_rom_pages: image[5] as usize,
        mapper_number: 0,
    }
}

/// The cell of the 2 KiB name table memory that a name table address
/// (0x2000 to 0x2FFF) stands for. With vertical mirroring the tables at
/// 0x2800 and 0x2C00 fold onto those at 0x2000 and 0x2400; with horizontal
/// mirroring 0x2400 folds onto 0x2000 and 0x2C00 onto 0x2800.
pub open spec fn nametable_cell(mirroring: NametableMirroring, address: u16) -> int {
    let table = (address - 0x2000) / 0x400;
    let cell = (address - 0x2000) % 0x400;
    let bank = match mirroring {
        NametableMirroring::Vertical => table % 2,
        NametableMirroring::Horizontal => table / 2,
    };
    bank * 0x400 + cell
}

impl CartridgeView {
    /// The banks have the sizes that the page counts give, a header is
    /// there, and the character RAM is 8 KiB.
    pub open spec fn wf(self) -> bool {
        &&& self.mem.len() >= HEADER_SIZE
        &&& self.prg_rom.len() == self.prg_rom_pages * PRG_ROM_PAGE_SIZE
        &&& self.chr_rom.len() == self.chr_rom_pages * CHR_ROM_PAGE_SIZE
        &&& self.chr_ram.len() == CHR_ROM_PAGE_SIZE
    }

    /// Bit 0 of header byte 6 chooses vertical mirroring.
    pub open spec fn mirroring(self) -> NametableMirroring {
        if self.mem[6] & 0x01 == 0x01 {
            NametableMirroring::Vertical
        } else {
            NametableMirroring::Horizontal
        }
    }

    /// What the processor reads from the cartridge at `address` (0x6000 to
    /// 0xFFFF). The board has no program RAM, so 0x6000 to 0x7FFF reads 0.
    /// From 0x8000 on the program ROM answers; a single 16 KiB bank shows
    /// a second time from 0xC000 on. A cartridge without program reads 0.
    pub open spec fn cpu_read(self, address: int) -> u8 {
        if address < 0x8000 || self.prg_rom.len() == 0 {
            0
        } else if address < 0xC000 {
            self.prg_rom[address - 0x8000]
        } else {
            self.prg_rom[(address - 0x8000) % (self.prg_rom.len() as int)]
        }
    }

    /// The pattern table byte at `address` (below 0x2000): from the character
    /// ROM where the cartridge has one, else from its character RAM.
    pub open spec fn pattern_byte(self, address: u16) -> u8 {
        if self.chr_rom.len() == 0 {
            self.chr_ram[address as int]
        } else {
            self.chr_rom[address as int]
        }
    }

    /// The cartridge after a write to the pattern tables: it takes effect
    /// only in character RAM.
    pub open spec fn with_pattern_byte(self, address: u16, value: u8) -> CartridgeView {
        if self.chr_rom.len() == 0 {
            CartridgeView { chr_ram: self.chr_ram.update(address as int, value), ..self }
        } else {
            self
        }
    }
}

fn copy_range(source: &Vec<u8>, start: usize, end: usize) -> (copy: Vec<u8>)
    requires
        start <= end <= source@.len(),
    ensures
        copy@ == source@.subrange(start as int, end as int),
{
    let mut copy: Vec<u8> = Vec::new();
    let mut i: usize = start;
    while i < end
        invariant
            start <= i <= end <= source@.len(),
            copy@ == source@.subrange(start as int, i as int),
        decreases end - i,
    {
        copy.push(source[i]);
        assert(copy@ =~= source@.subrange(start as int, i + 1));
        i += 1;
    }
    copy
}

impl Cartridge {
    pub open spec fn wf(&self) -> bool {
        self@.wf()
    }

    /// A cartridge without an image: no banks, 8 KiB of zeroed character RAM.
    pub fn new() -> (cartridge: Cartridge)
        ensures
            cartridge@ == (CartridgeView {
                mem: Seq::<u8>::empty(),
                prg_rom: Seq::<u8>::empty(),
                chr_rom: Seq::<u8>::empty(),
                chr_ram: Seq::new(CHR_ROM_PAGE_SIZE as nat, |i: int| 0u8),
                ines_format: false,
                nes20_format: false,
                prg_rom_pages: 0,
                chr_rom_pages: 0,
                mapper_number: 0,
            }),
    {
        let cartridge = Cartridge {
            mem: Vec::new(),
            prg_rom: Vec::new(),
            chr_rom: Vec::new(),
            chr_ram: vec![0u8; 0x2000],
            prg_rom_pages: 0,
            chr_rom_pages: 0,
            ines_format: false,
            nes20_format: false,
            mapper_number: 0,
        };
        assert(cartridge.chr_ram@ =~= Seq::new(CHR_ROM_PAGE_SIZE as nat, |i: int| 0u8));
        cartridge
    }

    /// Reads a ROM image: a 16 byte header, then the program banks of 16 KiB,
    /// then the character banks of 8 KiB. The image is turned down where
    /// `load_error` names a fault, and only there.
    pub fn new_from_bytes(image: Vec<u8>) -> (result: Result<Cartridge, RomError>)
        ensures
            match result {
                Ok(cartridge) => load_error(image@).is_none() && cartridge@ == loaded(image@)
                    && cartridge.wf(),
                Err(error) => load_error(image@) == Some(error),
            },
    {
        let mut rom = Cartridge::new();
        rom.mem = image;
        if !rom.is_ines_format() {
            return Err(RomError::InvalidMagic);
        }
        if rom.mem.len() < HEADER_SIZE {
            return Err(RomError::Truncated);
        }
        rom.ines_format = true;
        rom.nes20_format = rom.is_nes20_format();
        rom.update_chr_rom_size();
        rom.update_prg_rom_size();
        rom.update_mapper_number();
        if rom.mapper_number != 0 {
            return Err(RomError::UnsupportedMapper);
        }
        let prg_start: usize = HEADER_SIZE;
        let prg_end: usize = prg_start + PRG_ROM_PAGE_SIZE * rom.prg_rom_pages;
        let chr_start: usize = prg_end;
        let chr_end: usize = chr_start + CHR_ROM_PAGE_SIZE * rom.chr_rom_pages;
        if rom.mem.len() < chr_end {
            return Err(RomError::Truncated);
        }
        rom.prg_rom = copy_range(&rom.mem, prg_start, prg_end);
        rom.chr_rom = copy_range(&rom.mem, chr_start, chr_end);
        Ok(rom)
    }

    fn update_prg_rom_size(&mut self)
        requires
            old(self).mem@.len() >= HEADER_SIZE,
        ensures
            final(self)@ == (CartridgeView {
                prg_rom_pages: old(self).mem@[4] as usize,
                ..old(self)@
            }),
    {
        self.prg_rom_pages = self.mem[4] as usize;
    }

    fn update_chr_rom_size(&mut self)
        requires
            old(self).mem@.len() >= HEADER_SIZE,
        ensures
            final(self)@ == (CartridgeView {
                chr_rom_pages: old(self).mem@[5] as usize,
                ..old(self)@
            }),
    {
        self.chr_rom_pages = self.mem[5] as usize;
    }

    fn update_mapper_number(&mut self)
        requires
            old(self).mem@.len() >= HEADER_SIZE,
        ensures
            final(self)@ == (CartridgeView {
                mapper_number: mapper_of(old(self).mem@),
                ..old(self)@
            }),
    {
        self.mapper_number = (self.mem[6] >> 4) | (self.mem[7] & 0xF0);
    }

    fn is_ines_format(&self) -> (yes: bool)
        ensures
            yes == has_magic(self.mem@),
    {
        self.mem.len() >= 4 && self.mem[0] == 0x4E && self.mem[1] == 0x45 && self.mem[2] == 0x53
            && self.mem[3] == 0x1A
    }

    fn is_nes20_format(&self) -> (yes: bool)
        requires
            self.mem@.len() >= HEADER_SIZE,
        ensures
            yes == (self.ines_format && (self.mem@[7] & 0x0C) == 0x08),
    {
        let nes20_bit_check: bool = (self.mem[7] & 0x0C) == 0x08;
        self.ines_format && nes20_bit_check
    }

    fn fetch_mirroring(&self) -> (mirroring: NametableMirroring)
        requires
            self.wf(),
        ensures
            mirroring == self@.mirroring(),
    {
        if self.mem[6] & 0x01 == 0x01 {
            NametableMirroring::Vertical
        } else {
            NametableMirroring::Horizontal
        }
    }

    /// What the processor reads from the cartridge at `address`.
    pub fn read(&self, address: usize) -> (value: u8)
        requires
            self.wf(),
            0x6000 <= address <= 0xFFFF,
        ensures
            value == self@.cpu_read(address as int),
    {
        self.read_using_cpu_bus_address(address)
    }

    /// What the processor reads from the cartridge at `address`, an address
    /// of its bus.
    pub fn read_using_cpu_bus_address(&self, address: usize) -> (value: u8)
        requires
            self.wf(),
            0x6000 <= address <= 0xFFFF,
        ensures
            value == self@.cpu_read(address as int),
    {
        if address < 0x8000 || self.prg_rom.len() == 0 {
            0
        } else if address < 0xC000 {
            self.prg_rom[address - 0x8000usize]
        } else {
            self.prg_rom[(address - 0x8000usize) % self.prg_rom.len()]
        }
    }

    /// What the picture unit reads from the cartridge's own memory at
    /// `address`: the pattern tables.
    pub fn read_using_ppu_bus_address(&self, address: usize) -> (value: u8)
        requires
            self.wf(),
            address < 0x2000,
        ensures
            value == self@.pattern_byte(address as u16),
    {
        self.read_from_pattern_table(address as u16)
    }

    /// A write by the processor to the cartridge. The board has neither
    /// program RAM nor mapper registers, so the cartridge stays as it is.
    pub fn write(&mut self, address: usize, value: u8)
        ensures
            final(self)@ == old(self)@,
    {
    }

    pub fn read_from_pattern_table(&self, address: u16) -> (value: u8)
        requires
            self.wf(),
            address < 0x2000,
        ensures
            value == self@.pattern_byte(address),
    {
        if self.chr_rom.len() == 0 {
            return self.chr_ram[address as usize];
        }
        self.chr_rom[address as usize]
    }

    pub fn write_to_pattern_table(&mut self, address: u16, value: u8)
        requires
            old(self).wf(),
            address < 0x2000,
        ensures
            final(self).wf(),
            final(self)@ == old(self)@.with_pattern_byte(address, value),
    {
        if self.chr_rom.len() == 0 {
            self.chr_ram[address as usize] = value;
        }
    }

    fn nametable_offset(&self, address: u16) -> (offset: usize)
        requires
            self.wf(),
            0x2000 <= address <= 0x2FFF,
        ensures
            address - offset == nametable_cell(self@.mirroring(), address),
            0 <= address - offset < 0x0800,
    {
        match self.fetch_mirroring() {
            NametableMirroring::Vertical => {
                if address < 0x2800 {
                    0x2000
                } else {
                    0x2800
                }
            },
            NametableMirroring::Horizontal => {
                if address < 0x2400 {
                    0x2000
                } else if address < 0x2C00 {
                    0x2400
                } else {
                    0x2800
                }
            },
        }
    }

    /// Reads the name table byte at `address` out of the name table memory.
    pub fn read_from_nametable(&self, address: u16, vram: &Ram) -> (value: u8)
        requires
            self.wf(),
            vram.wf(),
            vram.size == 0x0800,
            0x2000 <= address <= 0x2FFF,
        ensures
            value == vram@[nametable_cell(self@.mirroring(), address)],
    {
        let offset: usize = self.nametable_offset(address);
        vram.read(address as usize - offset)
    }

    /// Writes the name table byte at `address` into the name table memory.
    pub fn write_to_nametable(&self, address: u16, vram: &mut Ram, value: u8)
        requires
            self.wf(),
            old(vram).wf(),
            old(vram).size == 0x0800,
            0x2000 <= address <= 0x2FFF,
        ensures
            final(vram).wf(),
            final(vram).size == 0x0800,
            final(vram)@ == old(vram)@.update(nametable_cell(self@.mirroring(), address), value),
    {
        let offset: usize = self.nametable_offset(address);
        vram.write(address as usize - offset, value);
    }
}

impl Default for Cartridge {
    fn default() -> (cartridge: Cartridge)
        ensures
            cartridge@ == (CartridgeView {
                mem: Seq::<u8>::empty(),
                prg_rom: Seq::<u8>::empty(),
                chr_rom: Seq::<u8>::empty(),
                chr_ram: Seq::new(CHR_ROM_PAGE_SIZE as nat, |i: int| 0u8),
                ines_format: false,
                nes20_format: false,
                prg_rom_pages: 0,
                chr_rom_pages: 0,
                mapper_number: 0,
            }),
    {
        Cartridge::new()
    }
}

} // verus!
