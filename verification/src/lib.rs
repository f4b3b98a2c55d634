use crate::cartridge::{load_error, loaded, CartridgeView, RomError};
use crate::controller::{Button, Controller};
use crate::cpu::bus::BusView;
use crate::cpu::{Cpu, CpuView, MAX_SKIP_CYCLES};
use crate::emulator::{booted, run};
use crate::ppu::laws::lemma_cycle_moves_dot;
use crate::ppu::Ppu;
use vstd::prelude::*;

pub mod cartridge;
pub mod controller;
pub mod cpu;
pub mod emulator;
pub mod input;
pub mod laws;
pub mod ppu;

verus! {

/// Dots in a frame: 341 in each of 262 scanlines.
pub const DOTS_PER_FRAME: u32 = 89342;

/// The dot at which a finished picture is first seen: the start of
/// scanline 240.
pub const FRAME_START: u32 = 81840;

/// The most steps that lead from any dot to the next start of a frame.
pub const MAX_FRAME_STEPS: u64 = 29781;

/// The console: the processor, and on its bus the picture unit, the
/// controller and the cartridge.
pub struct Emulator {
    pub cpu: Cpu,
}

impl View for Emulator {
    type V = CpuView;

    open spec fn view(&self) -> CpuView {
        self.cpu@
    }
}

/// How many dots a picture unit at the dot `dot` of the frame is short of
/// the last of the three dots at which a step can find the start of a
/// frame.
pub open spec fn frame_distance(dot: int) -> int {
    (FRAME_START + 2 - dot) % (DOTS_PER_FRAME as int)
}

impl CpuView {
    /// The machine after the picture unit ran for one dot.
    pub open spec fn ppu_cycle(self) -> CpuView {
        match self.bus.ppu {
            Some(ppu) => CpuView {
                bus: BusView { ppu: Some(ppu.cycle(self.bus.cartridge)), ..self.bus },
                ..self
            },
            None => self,
        }
    }

    /// The machine one step later: the processor runs for one cycle, then the
    /// picture unit for three dots.
    pub open spec fn machine_step(self) -> CpuView {
        self.step().ppu_cycle().ppu_cycle().ppu_cycle()
    }

    /// The machine `count` steps later.
    pub open spec fn machine_steps(self, count: nat) -> CpuView
        decreases count,
    {
        if count == 0 {
            self
        } else {
            self.machine_steps((count - 1) as nat).machine_step()
        }
    }

    /// The number of the dot of the picture unit within the frame.
    pub open spec fn dot_index(self) -> int {
        match self.bus.ppu {
            Some(ppu) => ppu.y * 341 + ppu.x,
            None => 0,
        }
    }

    /// The picture unit stands at one of the first three dots of scanline
    /// 240: the picture is finished.
    pub open spec fn at_frame_start(self) -> bool {
        match self.bus.ppu {
            Some(ppu) => ppu.y == 240 && ppu.x <= 2,
            None => false,
        }
    }

    /// After `count` steps, and not before, the machine finds the picture
    /// finished.
    pub open spec fn first_frame_start(self, count: nat) -> bool {
        &&& count >= 1
        &&& self.machine_steps(count).at_frame_start()
        &&& forall|earlier: nat|
            1 <= earlier < count ==> !(#[trigger] self.machine_steps(earlier)).at_frame_start()
    }

    /// The machine with `button` pressed (`down`) or released.
    pub open spec fn set_controller_state(self, button: Button, down: bool) -> CpuView {
        match self.bus.controller {
            Some(controller) => CpuView {
                bus: BusView { controller: Some(controller.with_button(button, down)), ..self.bus },
                ..self
            },
            None => self,
        }
    }
}

/// The machine when it is switched on with `cartridge` in its slot: memory
/// and picture unit zeroed, no button held, and the processor reset.
pub open spec fn power_on(cartridge: CartridgeView) -> CpuView {
    let cpu = booted(cartridge);
    CpuView {
        bus: BusView {
            ppu: Some(
                crate::ppu::power_on(
                    crate::ppu::bus::BusView {
                        vram: Seq::new(0x0800, |i: int| 0u8),
                        palette_ram: Seq::new(0x20, |i: int| 0u8),
                    },
                ),
            ),
            controller: Some(Controller { button_states: 0, shift_register: 0, strobe: true }),
            ..cpu.bus
        },
        ..cpu
    }
}

/// Three dots on from the dot `dot` of the frame the start of a frame is
/// three dots nearer, unless `dot` was within two dots of it.
proof fn lemma_frame_distance(start: int, count: nat, dot: int, next: int)
    requires
        0 <= start < DOTS_PER_FRAME,
        dot == (start + 3 * count) % (DOTS_PER_FRAME as int),
        next == (dot + 3) % (DOTS_PER_FRAME as int),
    ensures
        next == (start + 3 * (count + 1)) % (DOTS_PER_FRAME as int),
        0 <= frame_distance(next) < DOTS_PER_FRAME,
        frame_distance(dot) >= 3 ==> frame_distance(next) == frame_distance(dot) - 3,
        frame_distance(next) <= 2 <==> FRAME_START <= next <= FRAME_START + 2,
        frame_distance(dot) <= 2 <==> FRAME_START <= dot <= FRAME_START + 2,
{
}

proof fn lemma_three_dots(start: int, first: int, second: int, third: int)
    requires
        0 <= start < DOTS_PER_FRAME,
        first == (start + 1) % (DOTS_PER_FRAME as int),
        second == (first + 1) % (DOTS_PER_FRAME as int),
        third == (second + 1) % (DOTS_PER_FRAME as int),
    ensures
        third == (start + 3) % (DOTS_PER_FRAME as int),
{
}

impl Emulator {
    /// The processor and its bus are in order and the picture unit is
    /// there.
    pub open spec fn wf(&self) -> bool {
        self.cpu.wf() && self.cpu.bus.ppu.is_some()
    }

    /// Builds the console around the cartridge that the ROM image `rom`
    /// describes. An image with a fault is turned down.
    pub fn new(rom: Vec<u8>) -> (result: Result<Emulator, RomError>)
        ensures
            match result {
                Ok(emulator) => load_error(rom@).is_none() && emulator.wf() && emulator@
                    == power_on(loaded(rom@)),
                Err(error) => load_error(rom@) == Some(error),
            },
    {
        let cpu = match run(rom) {
            Ok(cpu) => cpu,
            Err(error) => {
                return Err(error);
            },
        };
        let ppu_bus = crate::ppu::bus::Bus::new();
        let ppu = Ppu::new(ppu_bus);
        let mut emulator = Emulator { cpu };
        emulator.cpu.bus.set_ppu(ppu);
        emulator.cpu.bus.set_controller(Controller::new());
        Ok(emulator)
    }

    fn step_ppu(&mut self)
        requires
            old(self).wf(),
        ensures
            final(self).wf(),
            final(self)@ == old(self)@.ppu_cycle(),
            final(self)@.dot_index() == (old(self)@.dot_index() + 1) % (DOTS_PER_FRAME as int),
            final(self).cpu.cycle == old(self).cpu.cycle,
            final(self).cpu.skip_cycles == old(self).cpu.skip_cycles,
    {
        proof {
            lemma_cycle_moves_dot(self.cpu.bus.ppu.unwrap()@, self.cpu.bus.cartridge@);
        }
        match &mut self.cpu.bus.ppu {
            Some(ppu) => {
                ppu.step(&self.cpu.bus.cartridge);
            },
            None => {},
        }
    }

    /// Runs the machine for one step: one cycle of the processor, then three
    /// dots of the picture unit.
    pub fn step(&mut self)
        requires
            old(self).wf(),
            old(self)@.can_step(),
        ensures
            final(self).wf(),
            final(self)@ == old(self)@.machine_step(),
            final(self).cpu.cycle == old(self).cpu.cycle + 1,
            final(self).cpu.skip_cycles <= MAX_SKIP_CYCLES,
            final(self)@.dot_index() == (old(self)@.dot_index() + 3) % (DOTS_PER_FRAME as int),
    {
        self.cpu.step();
        let ghost start = self@.dot_index();
        self.step_ppu();
        let ghost first = self@.dot_index();
        self.step_ppu();
        let ghost second = self@.dot_index();
        self.step_ppu();
        proof {
            lemma_three_dots(start, first, second, self@.dot_index());
        }
    }

    /// Runs the machine until a picture is finished: until a step leaves the
    /// picture unit at one of the first three dots of scanline 240. From one
    /// finished picture to the next the picture unit runs through one whole
    /// frame.
    pub fn step_frame(&mut self)
        requires
            old(self).wf(),
            old(self).cpu.skip_cycles <= MAX_SKIP_CYCLES,
            old(self).cpu.cycle + MAX_FRAME_STEPS <= u64::MAX,
        ensures
            final(self).wf(),
            final(self).cpu.skip_cycles <= MAX_SKIP_CYCLES,
            exists|count: nat|
                {
                    &&& #[trigger] old(self)@.first_frame_start(count)
                    &&& count <= MAX_FRAME_STEPS
                    &&& final(self)@ == old(self)@.machine_steps(count)
                    &&& final(self).cpu.cycle == old(self).cpu.cycle + count
                    &&& final(self)@.dot_index() == (old(self)@.dot_index() + 3 * count) % (
                    DOTS_PER_FRAME as int)
                    &&& old(self)@.at_frame_start() ==> 3 * count == DOTS_PER_FRAME
                        + final(self)@.dot_index() - old(self)@.dot_index()
                },
    {
        let ghost mut count: nat = 0;
        loop
            invariant_except_break
                forall|earlier: nat|
                    1 <= earlier <= count ==> !(#[trigger] old(self)@.machine_steps(
                        earlier,
                    )).at_frame_start(),
                count >= 1 ==> frame_distance(self@.dot_index()) >= 3,
                count <= MAX_FRAME_STEPS - 1,
            invariant
                self.wf(),
                self.cpu.skip_cycles <= MAX_SKIP_CYCLES,
                old(self).cpu.cycle + MAX_FRAME_STEPS <= u64::MAX,
                self@ == old(self)@.machine_steps(count),
                self.cpu.cycle == old(self).cpu.cycle + count,
                0 <= old(self)@.dot_index() < DOTS_PER_FRAME,
                self@.dot_index() == (old(self)@.dot_index() + 3 * count) % (
                DOTS_PER_FRAME as int),
                count >= 1 ==> 3 * (count - 1) + frame_distance(self@.dot_index())
                    <= DOTS_PER_FRAME - 1,
            ensures
                old(self)@.first_frame_start(count),
                count <= MAX_FRAME_STEPS,
            decreases
                    (if count == 0 {
                        DOTS_PER_FRAME + 3
                    } else {
                        frame_distance(self@.dot_index())
                    }),
        {
            let ghost before = self@.dot_index();
            self.step();
            proof {
                lemma_frame_distance(old(self)@.dot_index(), count, before, self@.dot_index());
                count = count + 1;
            }
            let finished: bool = match &self.cpu.bus.ppu {
                Some(ppu) => ppu.y == 240 && ppu.x <= 2,
                None => false,
            };
            if finished {
                break ;
            }
        }
    }

    /// Presses (`value` true) or releases a button of the controller.
    pub fn set_controller_state(&mut self, button: Button, value: bool)
        requires
            old(self).wf(),
        ensures
            final(self).wf(),
            final(self)@ == old(self)@.set_controller_state(button, value),
    {
        match &mut self.cpu.bus.controller {
            Some(c) => {
                c.set_button_state(button, value);
            },
            None => {},
        }
    }

    /// Presses (`down` true) or releases a button of the controller.
    pub fn set_button(&mut self, button: Button, down: bool)
        requires
            old(self).wf(),
        ensures
            final(self).wf(),
            final(self)@ == old(self)@.set_controller_state(button, down),
    {
        self.set_controller_state(button, down);
    }

    /// The picture: 256 by 240 pixels, three bytes each (red, green, blue),
    /// row after row.
    pub fn frame_pixels(&self) -> (pixels: &[u8])
        requires
            self.wf(),
        ensures
            pixels@ == self@.bus.ppu.unwrap().display.array,
            pixels@.len() == 256 * 240 * 3,
    {
        match &self.cpu.bus.ppu {
            Some(ppu) => ppu.display.get_pixels(),
            None => {
                let empty: &[u8] = &[];
                empty
            },
        }
    }
}

} // verus!
