use crate::cartridge::{Cartridge, CartridgeView};
use crate::controller::Controller;
use crate::cpu::ram::Ram;
use crate::ppu::model::PpuView;
use crate::ppu::Ppu;
use vstd::prelude::*;

verus! {

/// What the processor reaches over its 16 bit address bus: the work RAM, the
/// registers of the picture unit, the controller port and the cartridge.
pub struct Bus {
    pub ram: Ram,
    pub cartridge: Cartridge,
    pub ppu: Option<Ppu>,
    pub oamdma_occurred: bool,
    pub oamdma_high_byte: u16,
    pub controller: Option<Controller>,
}

/// The mathematical content of a [`Bus`].
pub struct BusView {
    pub ram: Seq<u8>,
    pub cartridge: CartridgeView,
    pub ppu: Option<PpuView>,
    pub oamdma_occurred: bool,
    pub oamdma_high_byte: u16,
    pub controller: Option<Controller>,
}

impl View for Bus {
    type V = BusView;

    open spec fn view(&self) -> BusView {
        BusView {
            ram: self.ram@,
            cartridge: self.cartridge@,
            ppu: match self.ppu {
                Some(ppu) => Some(ppu@),
                None => None,
            },
            oamdma_occurred: self.oamdma_occurred,
            oamdma_high_byte: self.oamdma_high_byte,
            controller: self.controller,
        }
    }
}

/// The register of the picture unit, 0x2000 to 0x2007, that an address from
/// 0x2000 to 0x3FFF stands for: the eight registers repeat every 8 bytes.
pub open spec fn ppu_register(address: u16) -> u16 {
    (0x2000 + (address - 0x2000) % 8) as u16
}

impl BusView {
    pub open spec fn wf(self) -> bool {
        &&& self.ram.len() == 0x0800
        &&& self.cartridge.wf()
        &&& match self.ppu {
            Some(ppu) => ppu.wf(),
            None => true,
        }
    }

    /// Where the dot of the picture unit stands, if there is a picture unit.
    pub open spec fn dot(self) -> Option<(u16, u16)> {
        match self.ppu {
            Some(ppu) => Some((ppu.x, ppu.y)),
            None => None,
        }
    }

    /// What a read of the register `register` (0x2000 to 0x2007) of the
    /// picture unit returns. Without a picture unit, and from the address
    /// register, which cannot be read, it is 0.
    pub open spec fn ppu_register_value(self, register: u16) -> u8 {
        match self.ppu {
            Some(ppu) => {
                if register == 0x2000 {
                    ppu.ppuctrl
                } else if register == 0x2001 {
                    ppu.ppumask
                } else if register == 0x2002 {
                    ppu.ppustatus
                } else if register == 0x2003 {
                    ppu.oamaddr
                } else if register == 0x2004 {
                    ppu.read_oamdata()
                } else if register == 0x2005 {
                    ppu.ppuscroll
                } else if register == 0x2007 {
                    ppu.ppudata_value(self.cartridge)
                } else {
                    0
                }
            },
            None => 0,
        }
    }

    /// The bus after a read of the register `register` of the picture unit:
    /// only reads of the status and of the data register leave a trace.
    pub open spec fn read_ppu_register(self, register: u16) -> BusView {
        match self.ppu {
            Some(ppu) => {
                if register == 0x2002 {
                    BusView { ppu: Some(ppu.read_ppustatus()), ..self }
                } else if register == 0x2007 {
                    BusView { ppu: Some(ppu.read_ppudata(self.cartridge)), ..self }
                } else {
                    self
                }
            },
            None => self,
        }
    }

    /// The bus after `value` was written to the register `register` of the
    /// picture unit. The status register takes no writes.
    pub open spec fn write_ppu_register(self, register: u16, value: u8) -> BusView {
        match self.ppu {
            Some(ppu) => {
                if register == 0x2000 {
                    BusView { ppu: Some(ppu.write_ppuctrl(value)), ..self }
                } else if register == 0x2001 {
                    BusView { ppu: Some(PpuView { ppumask: value, ..ppu }), ..self }
                } else if register == 0x2003 {
                    BusView { ppu: Some(PpuView { oamaddr: value, ..ppu }), ..self }
                } else if register == 0x2004 {
                    BusView { ppu: Some(ppu.write_oamdata(value)), ..self }
                } else if register == 0x2005 {
                    BusView {
                        ppu: Some(PpuView { ppuscroll: value, ..ppu }.write_ppuscroll(value)),
                        ..self
                    }
                } else if register == 0x2006 {
                    BusView { ppu: Some(ppu.write_ppuaddr(value)), ..self }
                } else if register == 0x2007 {
                    BusView {
                        ppu: Some(ppu.write_ppudata(self.cartridge, value)),
                        cartridge: ppu.cartridge_after_write_ppudata(self.cartridge, value),
                        ..self
                    }
                } else {
                    self
                }
            },
            None => self,
        }
    }

    /// What a read in the range of the sound and port registers (0x4000 to
    /// 0x401F) returns: the next bit of the controller at 0x4016 (1 without
    /// a controller), 1 at 0x4017, 0 elsewhere.
    pub open spec fn apu_io_register_value(self, address: u16) -> u8 {
        if address == 0x4016 {
            match self.controller {
                Some(controller) => controller.read_value(),
                None => 1,
            }
        } else if address == 0x4017 {
            1
        } else {
            0
        }
    }

    /// The bus after a read in the range 0x4000 to 0x401F.
    pub open spec fn read_apu_io_registers(self, address: u16) -> BusView {
        if address == 0x4016 {
            match self.controller {
                Some(controller) => BusView { controller: Some(controller.after_read()), ..self },
                None => self,
            }
        } else {
            self
        }
    }

    /// The bus after the start of a sprite DMA from page `value`.
    pub open spec fn oamdma(self, value: u8) -> BusView {
        BusView { oamdma_occurred: true, oamdma_high_byte: (value as u16) << 8, ..self }
    }

    /// The bus after a write in the range 0x4000 to 0x401F: 0x4014 starts a
    /// sprite DMA, 0x4016 drives the controller, the rest takes no writes.
    pub open spec fn write_apu_io_registers(self, address: u16, value: u8) -> BusView {
        if address == 0x4014 {
            self.oamdma(value)
        } else if address == 0x4016 {
            match self.controller {
                Some(controller) => BusView {
                    controller: Some(controller.after_write(value)),
                    ..self
                },
                None => self,
            }
        } else {
            self
        }
    }

    /// What a read at `address` returns. Where nothing answers (0x4020 to
    /// 0x5FFF) it is 0.
    pub open spec fn read_value(self, address: u16) -> u8 {
        if address < 0x2000 {
            self.ram[(address % 0x0800) as int]
        } else if address < 0x4000 {
            self.ppu_register_value(ppu_register(address))
        } else if address < 0x4020 {
            self.apu_io_register_value(address)
        } else if address < 0x6000 {
            0
        } else {
            self.cartridge.cpu_read(address as int)
        }
    }

    /// The bus after a read at `address`.
    #[verifier::opaque]
    pub open spec fn read(self, address: u16) -> BusView {
        if 0x2000 <= address < 0x4000 {
            self.read_ppu_register(ppu_register(address))
        } else if 0x4000 <= address < 0x4020 {
            self.read_apu_io_registers(address)
        } else {
            self
        }
    }

    /// The bus after `value` was written to `address`. From 0x4020 on no
    /// write has an effect.
    #[verifier::opaque]
    pub open spec fn write(self, address: u16, value: u8) -> BusView {
        if address < 0x2000 {
            BusView { ram: self.ram.update((address % 0x0800) as int, value), ..self }
        } else if address < 0x4000 {
            self.write_ppu_register(ppu_register(address), value)
        } else if address < 0x4020 {
            self.write_apu_io_registers(address, value)
        } else {
            self
        }
    }
}

impl Bus {
    pub open spec fn wf(&self) -> bool {
        &&& self@.wf()
        &&& self.ram.wf()
        &&& self.ram.size == 0x0800
        &&& match self.ppu {
            Some(ppu) => ppu.wf(),
            None => true,
        }
    }

    /// A bus with work RAM and cartridge, as yet without picture unit and
    /// controller.
    pub fn new(ram: Ram, cartridge: Cartridge) -> (bus: Bus)
        requires
            ram.wf(),
            ram.size == 0x0800,
            cartridge.wf(),
        ensures
            bus.wf(),
            bus@ == (BusView {
                ram: ram@,
                cartridge: cartridge@,
                ppu: None,
                oamdma_occurred: false,
                oamdma_high_byte: 0,
                controller: None,
            }),
    {
        Bus {
            ram,
            cartridge,
            ppu: None,
            controller: None,
            oamdma_occurred: false,
            oamdma_high_byte: 0,
        }
    }

    pub fn set_ppu(&mut self, ppu: Ppu)
        requires
            old(self).wf(),
            ppu.wf(),
        ensures
            final(self).wf(),
            final(self)@ == (BusView { ppu: Some(ppu@), ..old(self)@ }),
    {
        self.ppu = Some(ppu);
    }

    pub fn set_controller(&mut self, controller: Controller)
        requires
            old(self).wf(),
        ensures
            final(self).wf(),
            final(self)@ == (BusView { controller: Some(controller), ..old(self)@ }),
    {
        self.controller = Some(controller);
    }

    pub fn read(&mut self, address: u16) -> (value: u8)
        requires
            old(self).wf(),
        ensures
            final(self).wf(),
            value == old(self)@.read_value(address),
            final(self)@ == old(self)@.read(address),
            final(self)@.dot() == old(self)@.dot(),
    {
        reveal(BusView::read);
        if address < 0x0800 {
            // CPU RAM
            self.ram.read(address as usize)
        } else if address < 0x2000 {
            // CPU RAM (mirror)
            self.ram.read((address % 0x0800) as usize)
        } else if address < 0x2008 {
            // PPU registers
            self.read_ppu_register(address)
        } else if address < 0x4000 {
            // PPU registers (mirror)
            self.read_ppu_register((address - 0x2008u16) % 0x0008u16 + 0x2000u16)
        } else if address < 0x4020 {
            // APU and I/O registers
            self.read_apu_io_registers(address)
        } else if address < 0x6000 {
            0
        } else {
            // Cartridge (PRG ROM, PRG RAM, and mapper)
            self.cartridge.read_using_cpu_bus_address(address as usize)
        }
    }

    pub fn write(&mut self, address: u16, value: u8)
        requires
            old(self).wf(),
        ensures
            final(self).wf(),
            final(self)@ == old(self)@.write(address, value),
            final(self)@.dot() == old(self)@.dot(),
    {
        reveal(BusView::write);
        if address < 0x0800 {
            // CPU RAM
            self.ram.write(address as usize, value);
        } else if address < 0x2000 {
            // CPU RAM (mirror)
            self.ram.write((address % 0x0800) as usize, value);
        } else if address < 0x2008 {
            // PPU registers
            self.write_ppu_register(address, value);
        } else if address < 0x4000 {
            // PPU registers (mirror)
            self.write_ppu_register((address - 0x2008u16) % 0x0008u16 + 0x2000u16, value);
        } else if address < 0x4020 {
            // APU and I/O registers
            self.write_apu_io_registers(address, value);
        } else if address >= 0x6000 {
            // Cartridge (PRG ROM, PRG RAM, and mapper)
            self.cartridge.write(address as usize, value);
        }
    }

    fn read_ppu_register(&mut self, address: u16) -> (value: u8)
        requires
            old(self).wf(),
            0x2000 <= address <= 0x2007,
        ensures
            final(self).wf(),
            value == old(self)@.ppu_register_value(address),
            final(self)@ == old(self)@.read_ppu_register(address),
            final(self)@.dot() == old(self)@.dot(),
    {
        match &mut self.ppu {
            Some(ppu) => {
                if address == 0x2000 {
                    ppu.ppuctrl
                } else if address == 0x2001 {
                    ppu.ppumask
                } else if address == 0x2002 {
                    ppu.read_ppustatus()
                } else if address == 0x2003 {
                    ppu.oamaddr
                } else if address == 0x2004 {
                    ppu.read_oamdata()
                } else if address == 0x2005 {
                    ppu.ppuscroll
                } else if address == 0x2007 {
                    ppu.read_ppudata(&self.cartridge)
                } else {
                    0
                }
            },
            None => 0,
        }
    }

    fn write_ppu_register(&mut self, address: u16, value: u8)
        requires
            old(self).wf(),
            0x2000 <= address <= 0x2007,
        ensures
            final(self).wf(),
            final(self)@ == old(self)@.write_ppu_register(address, value),
            final(self)@.dot() == old(self)@.dot(),
    {
        match &mut self.ppu {
            Some(ppu) => {
                if address == 0x2000 {
                    ppu.write_ppuctrl(value);
                } else if address == 0x2001 {
                    ppu.ppumask = value;
                } else if address == 0x2003 {
                    ppu.oamaddr = value;
                } else if address == 0x2004 {
                    ppu.write_oamdata(value);
                } else if address == 0x2005 {
                    ppu.ppuscroll = value;
                    ppu.write_ppuscroll(value);
                } else if address == 0x2006 {
                    ppu.write_ppuaddr(value);
                } else if address == 0x2007 {
                    ppu.write_ppudata(&mut self.cartridge, value);
                }
            },
            None => {},
        }
    }

    fn read_apu_io_registers(&mut self, address: u16) -> (value: u8)
        requires
            old(self).wf(),
            0x4000 <= address <= 0x401f,
        ensures
            final(self).wf(),
            value == old(self)@.apu_io_register_value(address),
            final(self)@ == old(self)@.read_apu_io_registers(address),
            final(self)@.dot() == old(self)@.dot(),
    {
        if address == 0x4016 {
            match &mut self.controller {
                Some(controller) => controller.read(),
                None => 1,
            }
        } else if address == 0x4017 {
            1
        } else {
            0
        }
    }

    fn write_apu_io_registers(&mut self, address: u16, value: u8)
        requires
            old(self).wf(),
            0x4000 <= address <= 0x401f,
        ensures
            final(self).wf(),
            final(self)@ == old(self)@.write_apu_io_registers(address, value),
            final(self)@.dot() == old(self)@.dot(),
    {
        if address == 0x4014 {
            self.oamdma(value);
        } else if address == 0x4016 {
            match &mut self.controller {
                Some(controller) => {
                    controller.write(value);
                },
                None => {},
            }
        }
    }

    fn oamdma(&mut self, value: u8)
        requires
            old(self).wf(),
        ensures
            final(self).wf(),
            final(self)@ == old(self)@.oamdma(value),
            final(self)@.dot() == old(self)@.dot(),
    {
        self.oamdma_occurred = true;
        self.oamdma_high_byte = (value as u16) << 8;
    }
}

/// A byte written to the work RAM reads back from the address it was written
/// to and from each of its mirrors: two addresses below 0x2000 stand for the
/// same cell where they agree modulo 0x0800.
pub proof fn lemma_ram_write_then_read(bus: BusView, address: u16, mirror: u16, value: u8)
    requires
        bus.wf(),
        address < 0x2000,
        mirror < 0x2000,
        address % 0x0800 == mirror % 0x0800,
    ensures
        bus.write(address, value).read_value(mirror) == value,
        bus.write(address, value).read(mirror) == bus.write(address, value),
{
    reveal(BusView::read);
    reveal(BusView::write);
}

/// No read and no write on the bus moves the dot of the picture unit, or
/// puts a picture unit on the bus or takes it off.
pub proof fn lemma_bus_keeps_dot()
    ensures
        forall|bus: BusView, address: u16| #[trigger] bus.read(address).dot() == bus.dot(),
        forall|bus: BusView, address: u16, value: u8| #[trigger]
            bus.write(address, value).dot() == bus.dot(),
{
    reveal(BusView::read);
    reveal(BusView::write);
}

/// A read from 0x6000 on, where the cartridge answers, leaves no trace on
/// the bus and returns what the cartridge holds.
pub proof fn lemma_cartridge_read(bus: BusView, address: u16)
    requires
        address >= 0x6000,
    ensures
        bus.read(address) == bus,
        bus.read_value(address) == bus.cartridge.cpu_read(address as int),
{
    reveal(BusView::read);
}

} // verus!
