use crate::cpu::laws::{lemma_step_counts_cycle, lemma_step_keeps_dot};
use crate::cpu::CpuView;
use crate::ppu::laws::lemma_cycle_moves_dot;
use crate::{DOTS_PER_FRAME, FRAME_START};
use vstd::prelude::*;

verus! {

impl CpuView {
    /// The picture unit is on the bus and its dot lies inside the frame of
    /// 341 by 262.
    pub open spec fn dot_in_frame(self) -> bool {
        match self.bus.ppu {
            Some(ppu) => ppu.x < 341 && ppu.y < 262,
            None => false,
        }
    }
}

/// One dot of the picture unit moves the dot of the machine on by one,
/// round the frame, and leaves the cycle counter of the processor alone.
pub proof fn lemma_ppu_cycle_moves_dot(machine: CpuView)
    requires
        machine.dot_in_frame(),
    ensures
        machine.ppu_cycle().dot_in_frame(),
        machine.ppu_cycle().dot_index() == (machine.dot_index() + 1) % (DOTS_PER_FRAME as int),
        machine.ppu_cycle().cycle == machine.cycle,
{
    lemma_cycle_moves_dot(machine.bus.ppu.unwrap(), machine.bus.cartridge);
}

/// One step of the machine counts one cycle and moves the dot on by three,
/// round the frame; the dot stays inside the frame.
pub proof fn lemma_machine_step(machine: CpuView)
    requires
        machine.dot_in_frame(),
    ensures
        machine.machine_step().dot_in_frame(),
        machine.machine_step().dot_index() == (machine.dot_index() + 3) % (DOTS_PER_FRAME as int),
        machine.cycle < u64::MAX ==> machine.machine_step().cycle == machine.cycle + 1,
{
    lemma_step_keeps_dot(machine);
    if machine.cycle < u64::MAX {
        lemma_step_counts_cycle(machine);
    }
    let stepped = machine.step();
    assert(stepped.dot_in_frame() && stepped.dot_index() == machine.dot_index());
    lemma_ppu_cycle_moves_dot(stepped);
    lemma_ppu_cycle_moves_dot(stepped.ppu_cycle());
    lemma_ppu_cycle_moves_dot(stepped.ppu_cycle().ppu_cycle());
}

proof fn lemma_three_more(start: int, count: nat, dot: int, next: int)
    requires
        count >= 1,
        dot == (start + 3 * (count - 1)) % (DOTS_PER_FRAME as int),
        next == (dot + 3) % (DOTS_PER_FRAME as int),
    ensures
        next == (start + 3 * count) % (DOTS_PER_FRAME as int),
{
}

/// Any number of steps of the machine count as many cycles, never fewer than
/// were counted before, and move the dot on by three times as many places,
/// round the frame; the dot stays inside the frame.
pub proof fn lemma_machine_steps(machine: CpuView, count: nat)
    requires
        machine.dot_in_frame(),
    ensures
        machine.machine_steps(count).dot_in_frame(),
        machine.machine_steps(count).dot_index() == (machine.dot_index() + 3 * count) % (
        DOTS_PER_FRAME as int),
        machine.cycle + count <= u64::MAX ==> machine.machine_steps(count).cycle == machine.cycle
            + count,
    decreases count,
{
    if count > 0 {
        let before = machine.machine_steps((count - 1) as nat);
        lemma_machine_steps(machine, (count - 1) as nat);
        lemma_machine_step(before);
        assert(machine.machine_steps(count) == before.machine_step());
        lemma_three_more(
            machine.dot_index(),
            count,
            before.dot_index(),
            before.machine_step().dot_index(),
        );
    }
}

/// The picture is finished exactly where the dot lies in the first three
/// places of scanline 240.
pub proof fn lemma_frame_start_dots(machine: CpuView)
    requires
        machine.dot_in_frame(),
    ensures
        machine.at_frame_start() <==> FRAME_START <= machine.dot_index() <= FRAME_START + 2,
{
}

/// From one finished picture to the next the dot runs once round the
/// frame: where the machine stands at the start of a frame and finds the
/// next start of a frame after `count` steps, and not before, the dot has
/// moved by the 89342 places of a frame, give or take the two by which
/// the two starts may differ.
pub proof fn lemma_frame_to_frame(machine: CpuView, count: nat)
    requires
        machine.dot_in_frame(),
        machine.at_frame_start(),
        machine.first_frame_start(count),
    ensures
        3 * count == DOTS_PER_FRAME + machine.machine_steps(count).dot_index()
            - machine.dot_index(),
        29780 <= count <= 29781,
{
    let start = machine.dot_index();
    let lap: nat = ((DOTS_PER_FRAME + FRAME_START + 2 - start) / 3) as nat;
    lemma_frame_start_dots(machine);
    lemma_machine_steps(machine, count);
    lemma_frame_start_dots(machine.machine_steps(count));
    lemma_machine_steps(machine, lap);
    lemma_frame_start_dots(machine.machine_steps(lap));
    assert(machine.machine_steps(lap).at_frame_start());
    if count < lap {
        assert(false);
    }
}

/// From any dot the machine finds the start of a frame within 29781
/// steps: the first of its steps that does is no later than that.
pub proof fn lemma_frame_start_is_near(machine: CpuView, count: nat)
    requires
        machine.dot_in_frame(),
        machine.first_frame_start(count),
    ensures
        count <= 29781,
{
    let start = machine.dot_index();
    let short: int = (FRAME_START + 2 - start) / 3;
    let lap: nat = if 3 * short >= 3 && 3 * short >= FRAME_START - start {
        short as nat
    } else {
        ((DOTS_PER_FRAME + FRAME_START + 2 - start) / 3) as nat
    };
    lemma_machine_steps(machine, lap);
    lemma_frame_start_dots(machine.machine_steps(lap));
    assert(machine.machine_steps(lap).at_frame_start());
}

} // verus!
