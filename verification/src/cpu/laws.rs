use crate::cpu::address_mode::AddressMode;
use crate::cpu::bus::lemma_bus_keeps_dot;
use crate::cpu::instruction::carry_bit;
use crate::cpu::opcode::Opcode;
use crate::cpu::{stack_address, CpuView, Status};
use vstd::prelude::*;

verus! {

proof fn lemma_pushed_bits(n: bool, v: bool, b: bool, d: bool, i: bool, z: bool, c: bool)
    by (bit_vector)
    ensures
        ({
            let byte = (if n {
                0x80u8
            } else {
                0u8
            }) | (if v {
                0x40u8
            } else {
                0u8
            }) | 0x20u8 | (if b {
                0x10u8
            } else {
                0u8
            }) | (if d {
                0x08u8
            } else {
                0u8
            }) | (if i {
                0x04u8
            } else {
                0u8
            }) | (if z {
                0x02u8
            } else {
                0u8
            }) | (if c {
                0x01u8
            } else {
                0u8
            });
            &&& byte & 0x20 == 0x20
            &&& (byte & 0x10 == 0x10) == b
            &&& (byte & 0x01 == 0x01) == c
            &&& ((byte >> 1) & 0x01 == 0x01) == z
            &&& ((byte >> 2) & 0x01 == 0x01) == i
            &&& ((byte >> 3) & 0x01 == 0x01) == d
            &&& ((byte >> 6) & 0x01 == 0x01) == v
            &&& ((byte >> 7) & 0x01 == 0x01) == n
        }),
{
}

/// Every status byte that goes on the stack has bit 5 set, and has bit 4 set
/// exactly where an instruction pushed it.
pub proof fn lemma_pushed_byte(status: Status, by_instruction: bool)
    ensures
        status.pushed(by_instruction) & 0x20 == 0x20,
        (status.pushed(by_instruction) & 0x10 == 0x10) == by_instruction,
{
    lemma_pushed_bits(
        status.negative,
        status.overflow,
        by_instruction,
        status.decimal,
        status.interrupt,
        status.zero,
        status.carry,
    );
}

/// Flags that were pushed and pulled again are the flags that were
/// pushed, whoever pushed them and whatever the flags were before the pull.
pub proof fn lemma_pulled_after_pushed(status: Status, before: Status, by_instruction: bool)
    ensures
        before.pulled(status.pushed(by_instruction)) == (Status {
            something1: before.something1,
            something2: before.something2,
            ..status
        }),
{
    lemma_pushed_bits(
        status.negative,
        status.overflow,
        by_instruction,
        status.decimal,
        status.interrupt,
        status.zero,
        status.carry,
    );
}

/// The stack lies in page 1: whatever the stack pointer, the cell that it
/// names is one of 0x0100 to 0x01FF.
pub proof fn lemma_stack_in_page_one(pointer: u8)
    ensures
        0x0100 <= stack_address(pointer) <= 0x01FF,
{
}

proof fn lemma_complement(value: u8)
    by (bit_vector)
    ensures
        !value == 255 - value,
{
}

proof fn lemma_sign_bits(a: u8, m: u8, r: u8)
    by (bit_vector)
    ensures
        ((a ^ r) & (m ^ r) & 0x80 != 0) == (((a >= 128) == (m >= 128)) && ((a >= 128) != (r
            >= 128))),
        (r & 0x80 == 0x80) == (r >= 128),
{
}

/// Addition: the accumulator takes the sum modulo 256, the carry says that
/// the sum went past 255, and overflow says that two operands of one sign
/// gave a result of the other sign.
pub proof fn lemma_add_with_carry(cpu: CpuView, operand: u8)
    ensures
        ({
            let sum = cpu.accumulator + operand + carry_bit(cpu.status.carry);
            let after = cpu.add_with_carry(operand);
            &&& after.accumulator == sum % 256
            &&& after.status.carry == (sum >= 256)
            &&& after.status.zero == (sum % 256 == 0)
            &&& after.status.negative == (sum % 256 >= 128)
            &&& after.status.overflow == ((cpu.accumulator >= 128) == (operand >= 128) && (
            cpu.accumulator >= 128) != (sum % 256 >= 128))
        }),
{
    let after = cpu.add_with_carry(operand);
    lemma_sign_bits(cpu.accumulator, operand, after.accumulator);
}

/// Subtraction, which adds the complement of the operand: the accumulator
/// takes the difference less the borrow, modulo 256, and the carry is clear
/// exactly where the subtraction had to borrow.
pub proof fn lemma_subtract_with_borrow(cpu: CpuView, operand: u8)
    ensures
        ({
            let difference = cpu.accumulator - operand - (1 - carry_bit(cpu.status.carry));
            let after = cpu.add_with_carry(!operand);
            &&& after.accumulator == difference % 256
            &&& after.status.carry == (difference >= 0)
        }),
{
    lemma_complement(operand);
}

proof fn lemma_page_bits(a: u16, b: u16)
    by (bit_vector)
    ensures
        (a & 0xFF00 != b & 0xFF00) == (a / 256 != b / 256),
{
}

/// Two addresses lie on different pages where they differ in their high
/// bytes.
pub proof fn lemma_pages_differ(address_1: u16, address_2: u16)
    ensures
        crate::cpu::pages_differ(address_1, address_2) == (address_1 / 256 != address_2 / 256),
{
    lemma_page_bits(address_1, address_2);
}

/// A relative branch aims at the program counter behind the operand plus
/// the operand read as a signed byte, modulo 65536.
pub proof fn lemma_relative_target(cpu: CpuView)
    ensures
        ({
            let operand = cpu.fetch_operand();
            let distance: int = if operand.1 < 0x80 {
                operand.1 as int
            } else {
                operand.1 - 256
            };
            cpu.rel().1 == (operand.0.program_counter + distance) % 65536
        }),
{
}

/// No address mode moves the dot of the picture unit, or takes the picture
/// unit off the bus.
pub proof fn lemma_address_mode_keeps_dot(cpu: CpuView, address_mode: AddressMode)
    ensures
        cpu.execute_address_mode(address_mode).0.bus.dot() == cpu.bus.dot(),
{
    reveal(same_dot);
    lemma_bus_keeps_dot();
}

/// The picture unit stands at the same dot in both states, or is on the
/// bus in neither.
#[verifier::opaque]
pub open spec fn same_dot(before: CpuView, after: CpuView) -> bool {
    after.bus.dot() == before.bus.dot()
}

proof fn lemma_instructions_keep_dot_1(cpu: CpuView, address: u16)
    ensures
        same_dot(cpu, cpu.adc(address)),
        same_dot(cpu, cpu.and(address)),
        same_dot(cpu, cpu.asl(address)),
        same_dot(cpu, cpu.asl_acc(address)),
        same_dot(cpu, cpu.bcc(address)),
        same_dot(cpu, cpu.bcs(address)),
        same_dot(cpu, cpu.beq(address)),
        same_dot(cpu, cpu.bit(address)),
        same_dot(cpu, cpu.bmi(address)),
        same_dot(cpu, cpu.bne(address)),
{
    reveal(same_dot);
    lemma_bus_keeps_dot();
}

proof fn lemma_instructions_keep_dot_2(cpu: CpuView, address: u16)
    ensures
        same_dot(cpu, cpu.bpl(address)),
        same_dot(cpu, cpu.brk(address)),
        same_dot(cpu, cpu.bvc(address)),
        same_dot(cpu, cpu.bvs(address)),
        same_dot(cpu, cpu.clc(address)),
        same_dot(cpu, cpu.cld(address)),
        same_dot(cpu, cpu.cli(address)),
        same_dot(cpu, cpu.clv(address)),
        same_dot(cpu, cpu.cmp(address)),
        same_dot(cpu, cpu.cpx(address)),
{
    reveal(same_dot);
    lemma_bus_keeps_dot();
}

proof fn lemma_instructions_keep_dot_3(cpu: CpuView, address: u16)
    ensures
        same_dot(cpu, cpu.cpy(address)),
        same_dot(cpu, cpu.dec(address)),
        same_dot(cpu, cpu.dex(address)),
        same_dot(cpu, cpu.dey(address)),
        same_dot(cpu, cpu.eor(address)),
        same_dot(cpu, cpu.inc(address)),
        same_dot(cpu, cpu.inx(address)),
        same_dot(cpu, cpu.iny(address)),
        same_dot(cpu, cpu.jmp(address)),
        same_dot(cpu, cpu.jsr(address)),
{
    reveal(same_dot);
    lemma_bus_keeps_dot();
}

proof fn lemma_instructions_keep_dot_4(cpu: CpuView, address: u16)
    ensures
        same_dot(cpu, cpu.lda(address)),
        same_dot(cpu, cpu.ldx(address)),
        same_dot(cpu, cpu.ldy(address)),
        same_dot(cpu, cpu.lsr(address)),
        same_dot(cpu, cpu.lsr_acc(address)),
        same_dot(cpu, cpu.nop(address)),
        same_dot(cpu, cpu.ora(address)),
        same_dot(cpu, cpu.pha(address)),
        same_dot(cpu, cpu.php(address)),
        same_dot(cpu, cpu.pla(address)),
{
    reveal(same_dot);
    lemma_bus_keeps_dot();
}

proof fn lemma_instructions_keep_dot_5(cpu: CpuView, address: u16)
    ensures
        same_dot(cpu, cpu.plp(address)),
        same_dot(cpu, cpu.rol(address)),
        same_dot(cpu, cpu.rol_acc(address)),
        same_dot(cpu, cpu.ror(address)),
        same_dot(cpu, cpu.ror_acc(address)),
        same_dot(cpu, cpu.rti(address)),
        same_dot(cpu, cpu.rts(address)),
        same_dot(cpu, cpu.sbc(address)),
        same_dot(cpu, cpu.sec(address)),
        same_dot(cpu, cpu.sed(address)),
{
    reveal(same_dot);
    lemma_bus_keeps_dot();
}

proof fn lemma_instructions_keep_dot_6(cpu: CpuView, address: u16)
    ensures
        same_dot(cpu, cpu.sei(address)),
        same_dot(cpu, cpu.sta(address)),
        same_dot(cpu, cpu.stx(address)),
        same_dot(cpu, cpu.sty(address)),
        same_dot(cpu, cpu.tax(address)),
        same_dot(cpu, cpu.tay(address)),
        same_dot(cpu, cpu.tsx(address)),
        same_dot(cpu, cpu.txa(address)),
        same_dot(cpu, cpu.txs(address)),
        same_dot(cpu, cpu.tya(address)),
{
    reveal(same_dot);
    lemma_bus_keeps_dot();
}

proof fn lemma_instruction_same_dot(cpu: CpuView, opcode: Opcode, address: u16)
    ensures
        same_dot(cpu, cpu.execute_instruction(opcode, address)),
{
    assert(same_dot(cpu, cpu)) by {
        reveal(same_dot);
    }
    lemma_instructions_keep_dot_1(cpu, address);
    lemma_instructions_keep_dot_2(cpu, address);
    lemma_instructions_keep_dot_3(cpu, address);
    lemma_instructions_keep_dot_4(cpu, address);
    lemma_instructions_keep_dot_5(cpu, address);
    lemma_instructions_keep_dot_6(cpu, address);
}

/// No instruction moves the dot of the picture unit.
pub proof fn lemma_instruction_keeps_dot(cpu: CpuView, opcode: Opcode, address: u16)
    ensures
        cpu.execute_instruction(opcode, address).bus.dot() == cpu.bus.dot(),
{
    reveal(same_dot);
    lemma_instruction_same_dot(cpu, opcode, address);
}


/// Taking an interrupt leaves the dot of the picture unit where it is.
pub proof fn lemma_nmi_keeps_dot(cpu: CpuView)
    ensures
        cpu.sample_nmi().bus.dot() == cpu.bus.dot(),
{
    lemma_bus_keeps_dot();
}

/// A cycle of a sprite DMA leaves the dot of the picture unit where it is.
pub proof fn lemma_oamdma_keeps_dot(cpu: CpuView)
    ensures
        cpu.start_oamdma().bus.dot() == cpu.bus.dot(),
        cpu.oamdma_cycle().bus.dot() == cpu.bus.dot(),
{
    lemma_bus_keeps_dot();
    let address = cpu.bus.oamdma_high_byte | (((0x200 - cpu.oamdma_cycles_left) as u16) >> 1);
    assert(cpu.read_8(address).bus.dot() == cpu.bus.dot());
}

/// Running an instruction leaves the dot of the picture unit where it is.
pub proof fn lemma_execute_keeps_dot(cpu: CpuView)
    ensures
        cpu.execute_next_opcode().bus.dot() == cpu.bus.dot(),
{
    reveal(CpuView::execute_next_opcode);
    lemma_bus_keeps_dot();
    let opcode = crate::cpu::opcode::decode(cpu.next_opcode());
    let fetched = cpu.fetch_opcode();
    lemma_address_mode_keeps_dot(fetched, opcode.address_mode);
    let addressed = fetched.execute_address_mode(opcode.address_mode);
    lemma_instruction_keeps_dot(addressed.0, opcode, addressed.1);
}

/// A step of the processor leaves the dot of the picture unit where it is:
/// the registers are all that the processor reaches of the unit.
pub proof fn lemma_step_keeps_dot(cpu: CpuView)
    ensures
        cpu.step().bus.dot() == cpu.bus.dot(),
{
    reveal(CpuView::step);
    let sampled = cpu.sample_nmi();
    lemma_nmi_keeps_dot(cpu);
    lemma_oamdma_keeps_dot(sampled);
    lemma_oamdma_keeps_dot(sampled.start_oamdma());
    lemma_execute_keeps_dot(sampled.start_oamdma());
}

/// No address mode touches the cycle counter.
pub proof fn lemma_address_mode_keeps_cycle(cpu: CpuView, address_mode: AddressMode)
    ensures
        cpu.execute_address_mode(address_mode).0.cycle == cpu.cycle,
{
}

/// No instruction touches the cycle counter.
pub proof fn lemma_instruction_keeps_cycle(cpu: CpuView, opcode: Opcode, address: u16)
    ensures
        cpu.execute_instruction(opcode, address).cycle == cpu.cycle,
{
}

/// The cycle counter never goes down: every step of the processor counts
/// exactly one cycle, whatever the step does.
pub proof fn lemma_step_counts_cycle(cpu: CpuView)
    requires
        cpu.cycle < u64::MAX,
    ensures
        cpu.step().cycle == cpu.cycle + 1,
{
    reveal(CpuView::step);
    reveal(CpuView::execute_next_opcode);
    let sampled = cpu.sample_nmi();
    let started = sampled.start_oamdma();
    let opcode = crate::cpu::opcode::decode(started.next_opcode());
    let fetched = started.fetch_opcode();
    lemma_address_mode_keeps_cycle(fetched, opcode.address_mode);
    let addressed = fetched.execute_address_mode(opcode.address_mode);
    lemma_instruction_keeps_cycle(addressed.0, opcode, addressed.1);
}

} // verus!
