use crate::cartridge::{load_error, loaded, Cartridge, CartridgeView, RomError};
use crate::cpu::bus::{Bus, BusView};
use crate::cpu::ram::Ram;
use crate::cpu::{Cpu, CpuView};
use vstd::prelude::*;

verus! {

/// The processor when it is switched on with `cartridge` on its bus and
/// nothing else but the work RAM: the RAM zeroed, the processor reset.
pub open spec fn booted(cartridge: CartridgeView) -> CpuView {
    crate::cpu::power_on(
        BusView {
            ram: Seq::new(0x0800, |i: int| 0u8),
            cartridge,
            ppu: None,
            oamdma_occurred: false,
            oamdma_high_byte: 0,
            controller: None,
        },
    ).reset_program_counter()
}

/// Boots the processor on the cartridge that the ROM image `rom` describes,
/// with zeroed work RAM and neither picture unit nor controller on the bus.
/// An image with a fault is turned down.
pub fn run(rom: Vec<u8>) -> (result: Result<Cpu, RomError>)
    ensures
        match result {
            Ok(cpu) => load_error(rom@).is_none() && cpu.wf() && cpu@ == booted(loaded(rom@)),
            Err(error) => load_error(rom@) == Some(error),
        },
{
    let cartridge = match Cartridge::new_from_bytes(rom) {
        Ok(cartridge) => cartridge,
        Err(error) => {
            return Err(error);
        },
    };
    let ram = Ram::new(0x0800);
    let cpu_bus = Bus::new(ram, cartridge);
    Ok(Cpu::new(cpu_bus))
}

/// The program counter after a boot is the word at 0xFFFC of the
/// cartridge, low byte first.
pub proof fn lemma_boot_reads_reset_vector(cartridge: CartridgeView)
    ensures
        booted(cartridge).program_counter == (cartridge.cpu_read(0xFFFC) as u16) | ((
        cartridge.cpu_read(0xFFFD) as u16) << 8),
        booted(cartridge).stack_pointer == 0xFD,
        booted(cartridge).status.interrupt,
{
    crate::cpu::bus::lemma_cartridge_read(crate::cpu::power_on(
        BusView {
            ram: Seq::new(0x0800, |i: int| 0u8),
            cartridge,
            ppu: None,
            oamdma_occurred: false,
            oamdma_high_byte: 0,
            controller: None,
        },
    ).bus, 0xFFFC);
    crate::cpu::bus::lemma_cartridge_read(crate::cpu::power_on(
        BusView {
            ram: Seq::new(0x0800, |i: int| 0u8),
            cartridge,
            ppu: None,
            oamdma_occurred: false,
            oamdma_high_byte: 0,
            controller: None,
        },
    ).bus, 0xFFFD);
}

} // verus!
