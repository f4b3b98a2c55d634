use crate::cpu::{pages_differ, Cpu, CpuView, Status};
use vstd::prelude::*;

verus! {

/// The 56 instructions of the processor.
#[derive(Clone, Copy, Debug, PartialEq, Eq, Structural)]
pub enum Instruction {
    Invalid,
    ADC,
    AND,
    ASL,
    BCC,
    BCS,
    BEQ,
    BIT,
    BMI,
    BNE,
    BPL,
    BRK,
    BVC,
    BVS,
    CLC,
    CLD,
    CLI,
    CLV,
    CMP,
    CPX,
    CPY,
    DEC,
    DEX,
    DEY,
    EOR,
    INC,
    INX,
    INY,
    JMP,
    JSR,
    LDA,
    LDX,
    LDY,
    LSR,
    NOP,
    ORA,
    PHA,
    PHP,
    PLA,
    PLP,
    ROL,
    ROR,
    RTI,
    RTS,
    SBC,
    SEC,
    SED,
    SEI,
    STA,
    STX,
    STY,
    TAX,
    TAY,
    TSX,
    TXA,
    TXS,
    TYA,
}

/// The carry flag as a number.
pub open spec fn carry_bit(carry: bool) -> u8 {
    if carry {
        1
    } else {
        0
    }
}

impl CpuView {
    /// The zero and the negative flag follow `value`.
    pub open spec fn with_zn(self, value: u8) -> CpuView {
        CpuView {
            status: Status { zero: value == 0, negative: value & 0x80 == 0x80, ..self.status },
            ..self
        }
    }

    /// With the carry flag set to `carry`.
    pub open spec fn with_carry(self, carry: bool) -> CpuView {
        CpuView { status: Status { carry, ..self.status }, ..self }
    }

    /// An instruction that reads its operand takes one cycle more where the
    /// address mode crossed a page.
    pub open spec fn penalty(self) -> CpuView {
        if self.page_crossed {
            CpuView { skip_cycles: (self.skip_cycles + 1) as u8, ..self }
        } else {
            self
        }
    }

    /// A branch: where it is taken the program counter moves to `address`,
    /// which takes one cycle more, and a second one where `address` lies on
    /// another page than the instruction behind the branch.
    pub open spec fn branch(self, taken: bool, address: u16) -> CpuView {
        if taken {
            CpuView {
                program_counter: address,
                skip_cycles: (self.skip_cycles + 1 + (if pages_differ(
                    address,
                    self.program_counter,
                ) {
                    1int
                } else {
                    0int
                })) as u8,
                ..self
            }
        } else {
            self
        }
    }

    /// A register is held against the byte at `address`: carry says that the
    /// register is not below it, zero that the two are equal, negative is
    /// bit 7 of their difference.
    pub open spec fn compare(self, register: u8, address: u16) -> CpuView {
        let value = self.read_8_value(address);
        let read = self.read_8(address);
        CpuView {
            status: Status {
                carry: register >= value,
                zero: register == value,
                negative: register.wrapping_sub(value) & 0x80 == 0x80,
                ..read.status
            },
            ..read
        }
    }

    /// The accumulator takes the sum of itself, `operand` and the carry
    /// flag, modulo 256. Carry says that the sum went past 255. Overflow
    /// says that the sign of the result differs from the signs of both the
    /// accumulator and the operand.
    pub open spec fn add_with_carry(self, operand: u8) -> CpuView {
        let sum: int = self.accumulator + operand + carry_bit(self.status.carry);
        let result = (sum % 256) as u8;
        CpuView {
            accumulator: result,
            status: Status {
                carry: sum > 0xFF,
                zero: result == 0,
                negative: result & 0x80 == 0x80,
                overflow: (self.accumulator ^ result) & (operand ^ result) & 0x80 != 0,
                ..self.status
            },
            ..self
        }
    }

    /// The byte at `address` is replaced by `result`, which the zero and the
    /// negative flag follow.
    pub open spec fn modify(self, address: u16, result: u8) -> CpuView {
        self.read_8(address).with_zn(result).write_8(address, result)
    }

    /// The accumulator is replaced by `result`, which the zero and the
    /// negative flag follow.
    pub open spec fn load_accumulator(self, result: u8) -> CpuView {
        CpuView { accumulator: result, ..self }.with_zn(result)
    }

    pub open spec fn load_x(self, result: u8) -> CpuView {
        CpuView { x_index: result, ..self }.with_zn(result)
    }

    pub open spec fn load_y(self, result: u8) -> CpuView {
        CpuView { y_index: result, ..self }.with_zn(result)
    }

    /// The processor after ADC: add the byte at `address` and the carry to the
    /// accumulator.
    pub open spec fn adc(self, address: u16) -> CpuView {
        self.read_8(address).add_with_carry(self.read_8_value(address)).penalty()
    }

    /// The processor after AND: the accumulator keeps the bits that the byte at
    /// `address` has too.
    pub open spec fn and(self, address: u16) -> CpuView {
        self.read_8(address).load_accumulator(self.read_8_value(address) & self.accumulator).penalty()
    }

    /// The processor after ASL: the byte at `address` moves one bit to the left;
    /// bit 7 goes to the carry.
    pub open spec fn asl(self, address: u16) -> CpuView {
        self.with_carry(self.read_8_value(address) & 0x80 == 0x80).modify(
            address,
            self.read_8_value(address) << 1,
        )
    }

    /// The processor after ASL A: the accumulator moves one bit to the left; bit 7
    /// goes to the carry.
    pub open spec fn asl_acc(self, address: u16) -> CpuView {
        self.with_carry(self.accumulator & 0x80 == 0x80).load_accumulator(self.accumulator << 1)
    }

    /// The processor after BCC: branch if the carry is clear.
    pub open spec fn bcc(self, address: u16) -> CpuView {
        self.branch(!self.status.carry, address)
    }

    /// The processor after BCS: branch if the carry is set.
    pub open spec fn bcs(self, address: u16) -> CpuView {
        self.branch(self.status.carry, address)
    }

    /// The processor after BEQ: branch if the zero flag is set.
    pub open spec fn beq(self, address: u16) -> CpuView {
        self.branch(self.status.zero, address)
    }

    /// The processor after BIT: zero says that the accumulator and the byte at
    /// `address` share no bit; negative and overflow take bits 7 and 6 of the byte.
    pub open spec fn bit(self, address: u16) -> CpuView {
        CpuView {
            status: Status {
                zero: self.read_8_value(address) & self.accumulator == 0,
                negative: self.read_8_value(address) & 0x80 == 0x80,
                overflow: self.read_8_value(address) & 0x40 == 0x40,
                ..self.status
            },
            ..self.read_8(address)
        }
    }

    /// The processor after BMI: branch if the negative flag is set.
    pub open spec fn bmi(self, address: u16) -> CpuView {
        self.branch(self.status.negative, address)
    }

    /// The processor after BNE: branch if the zero flag is clear.
    pub open spec fn bne(self, address: u16) -> CpuView {
        self.branch(!self.status.zero, address)
    }

    /// The processor after BPL: branch if the negative flag is clear.
    pub open spec fn bpl(self, address: u16) -> CpuView {
        self.branch(!self.status.negative, address)
    }

    /// The processor after BRK: a software interrupt. The address two bytes behind
    /// the opcode and the status byte with bit 4 set go on the stack, interrupts
    /// are held off, and the program counter is loaded from the vector at 0xFFFE.
    pub open spec fn brk(self, address: u16) -> CpuView {
        let pushed = self.stack_push_16(self.program_counter.wrapping_add(1)).stack_push_8(
            self.status.pushed(true),
        );
        let masked = CpuView {
            program_counter: self.program_counter.wrapping_add(1),
            status: Status { interrupt: true, ..pushed.status },
            ..pushed
        };
        CpuView { program_counter: masked.read_16_value(0xfffe), ..masked.read_16(0xfffe) }
    }

    /// The processor after BVC: branch if the overflow flag is clear.
    pub open spec fn bvc(self, address: u16) -> CpuView {
        self.branch(!self.status.overflow, address)
    }

    /// The processor after BVS: branch if the overflow flag is set.
    pub open spec fn bvs(self, address: u16) -> CpuView {
        self.branch(self.status.overflow, address)
    }

    /// The processor after CLC: clear the carry.
    pub open spec fn clc(self, address: u16) -> CpuView {
        CpuView { status: Status { carry: false, ..self.status }, ..self }
    }

    /// The processor after CLD: clear the decimal flag.
    pub open spec fn cld(self, address: u16) -> CpuView {
        CpuView { status: Status { decimal: false, ..self.status }, ..self }
    }

    /// The processor after CLI: let interrupts through.
    pub open spec fn cli(self, address: u16) -> CpuView {
        CpuView { status: Status { interrupt: false, ..self.status }, ..self }
    }

    /// The processor after CLV: clear the overflow flag.
    pub open spec fn clv(self, address: u16) -> CpuView {
        CpuView { status: Status { overflow: false, ..self.status }, ..self }
    }

    /// The processor after CMP: hold the accumulator against the byte at `address`.
    pub open spec fn cmp(self, address: u16) -> CpuView {
        self.compare(self.accumulator, address).penalty()
    }

    /// The processor after CPX: hold X against the byte at `address`.
    pub open spec fn cpx(self, address: u16) -> CpuView {
        self.compare(self.x_index, address)
    }

    /// The processor after CPY: hold Y against the byte at `address`.
    pub open spec fn cpy(self, address: u16) -> CpuView {
        self.compare(self.y_index, address)
    }

    /// The processor after DEC: the byte at `address` goes down by one, from 0 to
    /// 255.
    pub open spec fn dec(self, address: u16) -> CpuView {
        self.modify(address, self.read_8_value(address).wrapping_sub(1))
    }

    /// The processor after DEX: X goes down by one.
    pub open spec fn dex(self, address: u16) -> CpuView {
        self.load_x(self.x_index.wrapping_sub(1))
    }

    /// The processor after DEY: Y goes down by one.
    pub open spec fn dey(self, address: u16) -> CpuView {
        self.load_y(self.y_index.wrapping_sub(1))
    }

    /// The processor after EOR: the accumulator keeps the bits in which it and the
    /// byte at `address` differ.
    pub open spec fn eor(self, address: u16) -> CpuView {
        self.read_8(address).load_accumulator(self.accumulator ^ self.read_8_value(address)).penalty()
    }

    /// The processor after INC: the byte at `address` goes up by one, from 255 to
    /// 0.
    pub open spec fn inc(self, address: u16) -> CpuView {
        self.modify(address, self.read_8_value(address).wrapping_add(1))
    }

    /// The processor after INX: X goes up by one.
    pub open spec fn inx(self, address: u16) -> CpuView {
        self.load_x(self.x_index.wrapping_add(1))
    }

    /// The processor after INY: Y goes up by one.
    pub open spec fn iny(self, address: u16) -> CpuView {
        self.load_y(self.y_index.wrapping_add(1))
    }

    /// The processor after JMP: go on at `address`.
    pub open spec fn jmp(self, address: u16) -> CpuView {
        CpuView { program_counter: address, ..self }
    }

    /// The processor after JSR: call the routine at `address`. The address of the
    /// last byte of this instruction goes on the stack.
    pub open spec fn jsr(self, address: u16) -> CpuView {
        CpuView { program_counter: address, ..self.stack_push_16(self.program_counter.wrapping_sub(1)) }
    }

    /// The processor after LDA: load the accumulator with the byte at `address`.
    pub open spec fn lda(self, address: u16) -> CpuView {
        self.read_8(address).load_accumulator(self.read_8_value(address)).penalty()
    }

    /// The processor after LDX: load X with the byte at `address`.
    pub open spec fn ldx(self, address: u16) -> CpuView {
        self.read_8(address).load_x(self.read_8_value(address)).penalty()
    }

    /// The processor after LDY: load Y with the byte at `address`.
    pub open spec fn ldy(self, address: u16) -> CpuView {
        self.read_8(address).load_y(self.read_8_value(address)).penalty()
    }

    /// The processor after LSR: the byte at `address` moves one bit to the right;
    /// bit 0 goes to the carry.
    pub open spec fn lsr(self, address: u16) -> CpuView {
        self.with_carry(self.read_8_value(address) & 0x01 == 0x01).modify(
            address,
            self.read_8_value(address) >> 1,
        )
    }

    /// The processor after LSR A: the accumulator moves one bit to the right; bit 0
    /// goes to the carry.
    pub open spec fn lsr_acc(self, address: u16) -> CpuView {
        self.with_carry(self.accumulator & 0x01 == 0x01).load_accumulator(self.accumulator >> 1)
    }

    /// The processor after NOP: nothing happens.
    pub open spec fn nop(self, address: u16) -> CpuView {
        self
    }

    /// The processor after ORA: the accumulator takes the bits of the byte at
    /// `address` in addition to its own.
    pub open spec fn ora(self, address: u16) -> CpuView {
        self.read_8(address).load_accumulator(self.read_8_value(address) | self.accumulator).penalty()
    }

    /// The processor after PHA: push the accumulator.
    pub open spec fn pha(self, address: u16) -> CpuView {
        self.stack_push_8(self.accumulator)
    }

    /// The processor after PHP: push the status byte, with bits 4 and 5 set.
    pub open spec fn php(self, address: u16) -> CpuView {
        self.stack_push_8(self.status.pushed(true))
    }

    /// The processor after PLA: pull the accumulator.
    pub open spec fn pla(self, address: u16) -> CpuView {
        self.stack_pop_8().load_accumulator(self.stack_pop_8_value())
    }

    /// The processor after PLP: pull the flags. Bits 4 and 5 of the byte are not
    /// looked at.
    pub open spec fn plp(self, address: u16) -> CpuView {
        CpuView {
            status: self.stack_pop_8().status.pulled(self.stack_pop_8_value()),
            ..self.stack_pop_8()
        }
    }

    /// The processor after ROL: the byte at `address` moves one bit to the left
    /// through the carry: the carry comes in as bit 0 and bit 7 goes to the carry.
    pub open spec fn rol(self, address: u16) -> CpuView {
        self.with_carry(self.read_8_value(address) >> 7 == 1).modify(
            address,
            (self.read_8_value(address) << 1) | carry_bit(self.status.carry),
        )
    }

    /// The processor after ROL A: the accumulator moves one bit to the left through
    /// the carry.
    pub open spec fn rol_acc(self, address: u16) -> CpuView {
        self.with_carry(self.accumulator >> 7 == 1).load_accumulator(
            (self.accumulator << 1) | carry_bit(self.status.carry),
        )
    }

    /// The processor after ROR: the byte at `address` moves one bit to the right
    /// through the carry: the carry comes in as bit 7 and bit 0 goes to the carry.
    pub open spec fn ror(self, address: u16) -> CpuView {
        self.with_carry(self.read_8_value(address) & 0x01 == 1).modify(
            address,
            (self.read_8_value(address) >> 1) | (carry_bit(self.status.carry) << 7),
        )
    }

    /// The processor after ROR A: the accumulator moves one bit to the right
    /// through the carry.
    pub open spec fn ror_acc(self, address: u16) -> CpuView {
        self.with_carry(self.accumulator & 0x01 == 1).load_accumulator(
            (self.accumulator >> 1) | (carry_bit(self.status.carry) << 7),
        )
    }

    /// The processor after RTI: return from an interrupt: pull the flags, then the
    /// program counter.
    pub open spec fn rti(self, address: u16) -> CpuView {
        CpuView {
            program_counter: self.plp(address).stack_pop_16_value(),
            ..self.plp(address).stack_pop_16()
        }
    }

    /// The processor after RTS: return from a routine: pull the program counter and
    /// go on behind the byte that it names.
    pub open spec fn rts(self, address: u16) -> CpuView {
        CpuView {
            program_counter: self.stack_pop_16_value().wrapping_add(1),
            ..self.stack_pop_16()
        }
    }

    /// The processor after SBC: take the byte at `address` and the borrow from the
    /// accumulator. The processor adds the complement of the byte; a clear carry is
    /// a borrow.
    pub open spec fn sbc(self, address: u16) -> CpuView {
        self.read_8(address).add_with_carry(!self.read_8_value(address)).penalty()
    }

    /// The processor after SEC: set the carry.
    pub open spec fn sec(self, address: u16) -> CpuView {
        CpuView { status: Status { carry: true, ..self.status }, ..self }
    }

    /// The processor after SED: set the decimal flag.
    pub open spec fn sed(self, address: u16) -> CpuView {
        CpuView { status: Status { decimal: true, ..self.status }, ..self }
    }

    /// The processor after SEI: hold interrupts off.
    pub open spec fn sei(self, address: u16) -> CpuView {
        CpuView { status: Status { interrupt: true, ..self.status }, ..self }
    }

    /// The processor after STA: store the accumulator at `address`.
    pub open spec fn sta(self, address: u16) -> CpuView {
        self.write_8(address, self.accumulator)
    }

    /// The processor after STX: store X at `address`.
    pub open spec fn stx(self, address: u16) -> CpuView {
        self.write_8(address, self.x_index)
    }

    /// The processor after STY: store Y at `address`.
    pub open spec fn sty(self, address: u16) -> CpuView {
        self.write_8(address, self.y_index)
    }

    /// The processor after TAX: copy the accumulator to X.
    pub open spec fn tax(self, address: u16) -> CpuView {
        self.load_x(self.accumulator)
    }

    /// The processor after TAY: copy the accumulator to Y.
    pub open spec fn tay(self, address: u16) -> CpuView {
        self.load_y(self.accumulator)
    }

    /// The processor after TSX: copy the stack pointer to X.
    pub open spec fn tsx(self, address: u16) -> CpuView {
        self.load_x(self.stack_pointer)
    }

    /// The processor after TXA: copy X to the accumulator.
    pub open spec fn txa(self, address: u16) -> CpuView {
        self.load_accumulator(self.x_index)
    }

    /// The processor after TXS: copy X to the stack pointer; no flag changes.
    pub open spec fn txs(self, address: u16) -> CpuView {
        CpuView { stack_pointer: self.x_index, ..self }
    }

    /// The processor after TYA: copy Y to the accumulator.
    pub open spec fn tya(self, address: u16) -> CpuView {
        self.load_accumulator(self.y_index)
    }
}

impl Cpu {
    fn set_zn(&mut self, value: u8)
        ensures
            final(self)@ == old(self)@.with_zn(value),
            final(self).bus == old(self).bus,
    {
        self.status.zero = value == 0;
        self.status.negative = value & 0x80 == 0x80;
    }

    fn penalty(&mut self)
        requires
            old(self).skip_cycles < 255,
        ensures
            final(self)@ == old(self)@.penalty(),
            final(self).bus == old(self).bus,
    {
        if self.page_crossed {
            self.skip_cycles += 1;
        }
    }

    fn branch(&mut self, taken: bool, address: u16)
        requires
            old(self).skip_cycles <= 253,
        ensures
            final(self)@ == old(self)@.branch(taken, address),
            final(self).bus == old(self).bus,
    {
        if taken {
            if self.crossing_page(address, self.program_counter) {
                self.skip_cycles += 1;
            }
            self.program_counter = address;
            self.skip_cycles += 1;
        }
    }

    fn compare(&mut self, register: u8, address: u16)
        requires
            old(self).wf(),
        ensures
            final(self).wf(),
            final(self)@ == old(self)@.compare(register, address),
            final(self)@.bus.dot() == old(self)@.bus.dot(),
    {
        let value: u8 = self.read_8(address);
        self.status.carry = register >= value;
        self.status.zero = register == value;
        self.status.negative = register.wrapping_sub(value) & 0x80 == 0x80;
    }

    fn add_with_carry(&mut self, operand: u8)
        ensures
            final(self)@ == old(self)@.add_with_carry(operand),
            final(self).bus == old(self).bus,
    {
        let carry: u16 = if self.status.carry {
            1
        } else {
            0
        };
        let values_added: u16 = operand as u16 + self.accumulator as u16 + carry;
        let result: u8 = (values_added % 256) as u8;
        self.status.carry = values_added > 0xFF;
        self.status.zero = result == 0;
        self.status.negative = result & 0x80 == 0x80;
        self.status.overflow = (self.accumulator ^ result) & (operand ^ result) & 0x80 != 0;
        self.accumulator = result;
    }

    fn modify(&mut self, address: u16, result: u8)
        requires
            old(self).wf(),
        ensures
            final(self).wf(),
            final(self)@ == old(self)@.write_8(address, result).with_zn(result),
            final(self)@.bus.dot() == old(self)@.bus.dot(),
    {
        self.set_zn(result);
        self.write_8(address, result);
    }

    /// ADC: add the byte at `address` and the carry to the accumulator.
    pub fn adc(&mut self, address: u16)
        requires
            old(self).wf(),
            old(self).skip_cycles < 255,
        ensures
            final(self)@ == old(self)@.adc(address),
            final(self).wf(),
            final(self)@.bus.dot() == old(self)@.bus.dot(),
            final(self).skip_cycles <= old(self).skip_cycles + 1,
            final(self).cycle == old(self).cycle,
    {
        let value: u8 = self.read_8(address);
        self.add_with_carry(value);
        self.penalty();
    }

    /// AND: the accumulator keeps the bits that the byte at `address` has too.
    pub fn and(&mut self, address: u16)
        requires
            old(self).wf(),
            old(self).skip_cycles < 255,
        ensures
            final(self)@ == old(self)@.and(address),
            final(self).wf(),
            final(self)@.bus.dot() == old(self)@.bus.dot(),
            final(self).skip_cycles <= old(self).skip_cycles + 1,
            final(self).cycle == old(self).cycle,
    {
        let value: u8 = self.read_8(address) & self.accumulator;
        self.accumulator = value;
        self.set_zn(value);
        self.penalty();
    }

    /// ASL: the byte at `address` moves one bit to the left; bit 7 goes to the
    /// carry.
    pub fn asl(&mut self, address: u16)
        requires
            old(self).wf(),
        ensures
            final(self)@ == old(self)@.asl(address),
            final(self).wf(),
            final(self)@.bus.dot() == old(self)@.bus.dot(),
            final(self).skip_cycles == old(self).skip_cycles,
            final(self).cycle == old(self).cycle,
    {
        let value: u8 = self.read_8(address);
        self.status.carry = value & 0x80 == 0x80;
        self.modify(address, value << 1);
    }

    /// ASL A: the accumulator moves one bit to the left; bit 7 goes to the carry.
    pub fn asl_acc(&mut self, _address: u16)
        requires
            old(self).wf(),
        ensures
            final(self)@ == old(self)@.asl_acc(_address),
            final(self).wf(),
            final(self)@.bus.dot() == old(self)@.bus.dot(),
            final(self).skip_cycles == old(self).skip_cycles,
            final(self).cycle == old(self).cycle,
    {
        let value: u8 = self.accumulator;
        self.status.carry = value & 0x80 == 0x80;
        self.accumulator = value << 1;
        self.set_zn(value << 1);
    }

    /// BCC: branch if the carry is clear.
    pub fn bcc(&mut self, address: u16)
        requires
            old(self).skip_cycles <= 253,
        ensures
            final(self)@ == old(self)@.bcc(address),
            final(self).bus == old(self).bus,
            final(self).skip_cycles <= old(self).skip_cycles + 2,
            final(self).cycle == old(self).cycle,
    {
        let taken: bool = !self.status.carry;
        self.branch(taken, address);
    }

    /// BCS: branch if the carry is set.
    pub fn bcs(&mut self, address: u16)
        requires
            old(self).skip_cycles <= 253,
        ensures
            final(self)@ == old(self)@.bcs(address),
            final(self).bus == old(self).bus,
            final(self).skip_cycles <= old(self).skip_cycles + 2,
            final(self).cycle == old(self).cycle,
    {
        let taken: bool = self.status.carry;
        self.branch(taken, address);
    }

    /// BEQ: branch if the zero flag is set.
    pub fn beq(&mut self, address: u16)
        requires
            old(self).skip_cycles <= 253,
        ensures
            final(self)@ == old(self)@.beq(address),
            final(self).bus == old(self).bus,
            final(self).skip_cycles <= old(self).skip_cycles + 2,
            final(self).cycle == old(self).cycle,
    {
        let taken: bool = self.status.zero;
        self.branch(taken, address);
    }

    /// BIT: zero says that the accumulator and the byte at `address` share no bit;
    /// negative and overflow take bits 7 and 6 of the byte.
    pub fn bit(&mut self, address: u16)
        requires
            old(self).wf(),
        ensures
            final(self)@ == old(self)@.bit(address),
            final(self).wf(),
            final(self)@.bus.dot() == old(self)@.bus.dot(),
            final(self).skip_cycles == old(self).skip_cycles,
            final(self).cycle == old(self).cycle,
    {
        let value: u8 = self.read_8(address);
        let value_masked: u8 = value & self.accumulator;
        self.status.zero = value_masked == 0;
        self.status.negative = value & 0x80 == 0x80;
        self.status.overflow = value & 0x40 == 0x40;
    }

    /// BMI: branch if the negative flag is set.
    pub fn bmi(&mut self, address: u16)
        requires
            old(self).skip_cycles <= 253,
        ensures
            final(self)@ == old(self)@.bmi(address),
            final(self).bus == old(self).bus,
            final(self).skip_cycles <= old(self).skip_cycles + 2,
            final(self).cycle == old(self).cycle,
    {
        let taken: bool = self.status.negative;
        self.branch(taken, address);
    }

    /// BNE: branch if the zero flag is clear.
    pub fn bne(&mut self, address: u16)
        requires
            old(self).skip_cycles <= 253,
        ensures
            final(self)@ == old(self)@.bne(address),
            final(self).bus == old(self).bus,
            final(self).skip_cycles <= old(self).skip_cycles + 2,
            final(self).cycle == old(self).cycle,
    {
        let taken: bool = !self.status.zero;
        self.branch(taken, address);
    }

    /// BPL: branch if the negative flag is clear.
    pub fn bpl(&mut self, address: u16)
        requires
            old(self).skip_cycles <= 253,
        ensures
            final(self)@ == old(self)@.bpl(address),
            final(self).bus == old(self).bus,
            final(self).skip_cycles <= old(self).skip_cycles + 2,
            final(self).cycle == old(self).cycle,
    {
        let taken: bool = !self.status.negative;
        self.branch(taken, address);
    }

    /// BRK: a software interrupt. The address two bytes behind the opcode and the
    /// status byte with bit 4 set go on the stack, interrupts are held off, and the
    /// program counter is loaded from the vector at 0xFFFE.
    pub fn brk(&mut self, _address: u16)
        requires
            old(self).wf(),
        ensures
            final(self)@ == old(self)@.brk(_address),
            final(self).wf(),
            final(self)@.bus.dot() == old(self)@.bus.dot(),
            final(self).skip_cycles == old(self).skip_cycles,
            final(self).cycle == old(self).cycle,
    {
        self.program_counter = self.program_counter.wrapping_add(1);  // BRK is a 2-byte instruction
        self.stack_push_16(self.program_counter);
        self.stack_push_8(self.status.get_pushed_byte(true));
        self.status.interrupt = true;
        let irq_vector: u16 = self.read_16(0xfffe);
        self.program_counter = irq_vector;
    }

    /// BVC: branch if the overflow flag is clear.
    pub fn bvc(&mut self, address: u16)
        requires
            old(self).skip_cycles <= 253,
        ensures
            final(self)@ == old(self)@.bvc(address),
            final(self).bus == old(self).bus,
            final(self).skip_cycles <= old(self).skip_cycles + 2,
            final(self).cycle == old(self).cycle,
    {
        let taken: bool = !self.status.overflow;
        self.branch(taken, address);
    }

    /// BVS: branch if the overflow flag is set.
    pub fn bvs(&mut self, address: u16)
        requires
            old(self).skip_cycles <= 253,
        ensures
            final(self)@ == old(self)@.bvs(address),
            final(self).bus == old(self).bus,
            final(self).skip_cycles <= old(self).skip_cycles + 2,
            final(self).cycle == old(self).cycle,
    {
        let taken: bool = self.status.overflow;
        self.branch(taken, address);
    }

    /// CLC: clear the carry.
    pub fn clc(&mut self, _address: u16)
        ensures
            final(self)@ == old(self)@.clc(_address),
            final(self).bus == old(self).bus,
            final(self).skip_cycles == old(self).skip_cycles,
            final(self).cycle == old(self).cycle,
    {
        self.status.carry = false;
    }

    /// CLD: clear the decimal flag.
    pub fn cld(&mut self, _address: u16)
        ensures
            final(self)@ == old(self)@.cld(_address),
            final(self).bus == old(self).bus,
            final(self).skip_cycles == old(self).skip_cycles,
            final(self).cycle == old(self).cycle,
    {
        self.status.decimal = false;
    }

    /// CLI: let interrupts through.
    pub fn cli(&mut self, _address: u16)
        ensures
            final(self)@ == old(self)@.cli(_address),
            final(self).bus == old(self).bus,
            final(self).skip_cycles == old(self).skip_cycles,
            final(self).cycle == old(self).cycle,
    {
        self.status.interrupt = false;
    }

    /// CLV: clear the overflow flag.
    pub fn clv(&mut self, _address: u16)
        ensures
            final(self)@ == old(self)@.clv(_address),
            final(self).bus == old(self).bus,
            final(self).skip_cycles == old(self).skip_cycles,
            final(self).cycle == old(self).cycle,
    {
        self.status.overflow = false;
    }

    /// CMP: hold the accumulator against the byte at `address`.
    pub fn cmp(&mut self, address: u16)
        requires
            old(self).wf(),
            old(self).skip_cycles < 255,
        ensures
            final(self)@ == old(self)@.cmp(address),
            final(self).wf(),
            final(self)@.bus.dot() == old(self)@.bus.dot(),
            final(self).skip_cycles <= old(self).skip_cycles + 1,
            final(self).cycle == old(self).cycle,
    {
        self.compare(self.accumulator, address);
        self.penalty();
    }

    /// CPX: hold X against the byte at `address`.
    pub fn cpx(&mut self, address: u16)
        requires
            old(self).wf(),
        ensures
            final(self)@ == old(self)@.cpx(address),
            final(self).wf(),
            final(self)@.bus.dot() == old(self)@.bus.dot(),
            final(self).skip_cycles == old(self).skip_cycles,
            final(self).cycle == old(self).cycle,
    {
        self.compare(self.x_index, address);
    }

    /// CPY: hold Y against the byte at `address`.
    pub fn cpy(&mut self, address: u16)
        requires
            old(self).wf(),
        ensures
            final(self)@ == old(self)@.cpy(address),
            final(self).wf(),
            final(self)@.bus.dot() == old(self)@.bus.dot(),
            final(self).skip_cycles == old(self).skip_cycles,
            final(self).cycle == old(self).cycle,
    {
        self.compare(self.y_index, address);
    }

    /// DEC: the byte at `address` goes down by one, from 0 to 255.
    pub fn dec(&mut self, address: u16)
        requires
            old(self).wf(),
        ensures
            final(self)@ == old(self)@.dec(address),
            final(self).wf(),
            final(self)@.bus.dot() == old(self)@.bus.dot(),
            final(self).skip_cycles == old(self).skip_cycles,
            final(self).cycle == old(self).cycle,
    {
        let value: u8 = self.read_8(address).wrapping_sub(1);
        self.modify(address, value);
    }

    /// DEX: X goes down by one.
    pub fn dex(&mut self, _address: u16)
        ensures
            final(self)@ == old(self)@.dex(_address),
            final(self).bus == old(self).bus,
            final(self).skip_cycles == old(self).skip_cycles,
            final(self).cycle == old(self).cycle,
    {
        self.x_index = self.x_index.wrapping_sub(1);
        self.set_zn(self.x_index);
    }

    /// DEY: Y goes down by one.
    pub fn dey(&mut self, _address: u16)
        ensures
            final(self)@ == old(self)@.dey(_address),
            final(self).bus == old(self).bus,
            final(self).skip_cycles == old(self).skip_cycles,
            final(self).cycle == old(self).cycle,
    {
        self.y_index = self.y_index.wrapping_sub(1);
        self.set_zn(self.y_index);
    }

    /// EOR: the accumulator keeps the bits in which it and the byte at `address`
    /// differ.
    pub fn eor(&mut self, address: u16)
        requires
            old(self).wf(),
            old(self).skip_cycles < 255,
        ensures
            final(self)@ == old(self)@.eor(address),
            final(self).wf(),
            final(self)@.bus.dot() == old(self)@.bus.dot(),
            final(self).skip_cycles <= old(self).skip_cycles + 1,
            final(self).cycle == old(self).cycle,
    {
        let value: u8 = self.accumulator ^ self.read_8(address);
        self.accumulator = value;
        self.set_zn(value);
        self.penalty();
    }

    /// INC: the byte at `address` goes up by one, from 255 to 0.
    pub fn inc(&mut self, address: u16)
        requires
            old(self).wf(),
        ensures
            final(self)@ == old(self)@.inc(address),
            final(self).wf(),
            final(self)@.bus.dot() == old(self)@.bus.dot(),
            final(self).skip_cycles == old(self).skip_cycles,
            final(self).cycle == old(self).cycle,
    {
        let value: u8 = self.read_8(address).wrapping_add(1);
        self.modify(address, value);
    }

    /// INX: X goes up by one.
    pub fn inx(&mut self, _address: u16)
        ensures
            final(self)@ == old(self)@.inx(_address),
            final(self).bus == old(self).bus,
            final(self).skip_cycles == old(self).skip_cycles,
            final(self).cycle == old(self).cycle,
    {
        self.x_index = self.x_index.wrapping_add(1);
        self.set_zn(self.x_index);
    }

    /// INY: Y goes up by one.
    pub fn iny(&mut self, _address: u16)
        ensures
            final(self)@ == old(self)@.iny(_address),
            final(self).bus == old(self).bus,
            final(self).skip_cycles == old(self).skip_cycles,
            final(self).cycle == old(self).cycle,
    {
        self.y_index = self.y_index.wrapping_add(1);
        self.set_zn(self.y_index);
    }

    /// JMP: go on at `address`.
    pub fn jmp(&mut self, address: u16)
        ensures
            final(self)@ == old(self)@.jmp(address),
            final(self).bus == old(self).bus,
            final(self).skip_cycles == old(self).skip_cycles,
            final(self).cycle == old(self).cycle,
    {
        self.program_counter = address;
    }

    /// JSR: call the routine at `address`. The address of the last byte of this
    /// instruction goes on the stack.
    pub fn jsr(&mut self, address: u16)
        requires
            old(self).wf(),
        ensures
            final(self)@ == old(self)@.jsr(address),
            final(self).wf(),
            final(self)@.bus.dot() == old(self)@.bus.dot(),
            final(self).skip_cycles == old(self).skip_cycles,
            final(self).cycle == old(self).cycle,
    {
        self.stack_push_16(self.program_counter.wrapping_sub(1));
        self.program_counter = address;
    }

    /// LDA: load the accumulator with the byte at `address`.
    pub fn lda(&mut self, address: u16)
        requires
            old(self).wf(),
            old(self).skip_cycles < 255,
        ensures
            final(self)@ == old(self)@.lda(address),
            final(self).wf(),
            final(self)@.bus.dot() == old(self)@.bus.dot(),
            final(self).skip_cycles <= old(self).skip_cycles + 1,
            final(self).cycle == old(self).cycle,
    {
        self.accumulator = self.read_8(address);
        self.set_zn(self.accumulator);
        self.penalty();
    }

    /// LDX: load X with the byte at `address`.
    pub fn ldx(&mut self, address: u16)
        requires
            old(self).wf(),
            old(self).skip_cycles < 255,
        ensures
            final(self)@ == old(self)@.ldx(address),
            final(self).wf(),
            final(self)@.bus.dot() == old(self)@.bus.dot(),
            final(self).skip_cycles <= old(self).skip_cycles + 1,
            final(self).cycle == old(self).cycle,
    {
        self.x_index = self.read_8(address);
        self.set_zn(self.x_index);
        self.penalty();
    }

    /// LDY: load Y with the byte at `address`.
    pub fn ldy(&mut self, address: u16)
        requires
            old(self).wf(),
            old(self).skip_cycles < 255,
        ensures
            final(self)@ == old(self)@.ldy(address),
            final(self).wf(),
            final(self)@.bus.dot() == old(self)@.bus.dot(),
            final(self).skip_cycles <= old(self).skip_cycles + 1,
            final(self).cycle == old(self).cycle,
    {
        self.y_index = self.read_8(address);
        self.set_zn(self.y_index);
        self.penalty();
    }

    /// LSR: the byte at `address` moves one bit to the right; bit 0 goes to the
    /// carry.
    pub fn lsr(&mut self, address: u16)
        requires
            old(self).wf(),
        ensures
            final(self)@ == old(self)@.lsr(address),
            final(self).wf(),
            final(self)@.bus.dot() == old(self)@.bus.dot(),
            final(self).skip_cycles == old(self).skip_cycles,
            final(self).cycle == old(self).cycle,
    {
        let value: u8 = self.read_8(address);
        self.status.carry = value & 0x01 == 0x01;
        self.modify(address, value >> 1);
    }

    /// LSR A: the accumulator moves one bit to the right; bit 0 goes to the carry.
    pub fn lsr_acc(&mut self, _address: u16)
        ensures
            final(self)@ == old(self)@.lsr_acc(_address),
            final(self).bus == old(self).bus,
            final(self).skip_cycles == old(self).skip_cycles,
            final(self).cycle == old(self).cycle,
    {
        let value: u8 = self.accumulator;
        self.status.carry = value & 0x01 == 0x01;
        self.accumulator = value >> 1;
        self.set_zn(value >> 1);
    }

    /// NOP: nothing happens.
    pub fn nop(&mut self, _address: u16)
        ensures
            final(self)@ == old(self)@.nop(_address),
            final(self).bus == old(self).bus,
            final(self).skip_cycles == old(self).skip_cycles,
            final(self).cycle == old(self).cycle,
    {
    }

    /// ORA: the accumulator takes the bits of the byte at `address` in addition to
    /// its own.
    pub fn ora(&mut self, address: u16)
        requires
            old(self).wf(),
            old(self).skip_cycles < 255,
        ensures
            final(self)@ == old(self)@.ora(address),
            final(self).wf(),
            final(self)@.bus.dot() == old(self)@.bus.dot(),
            final(self).skip_cycles <= old(self).skip_cycles + 1,
            final(self).cycle == old(self).cycle,
    {
        let value: u8 = self.read_8(address) | self.accumulator;
        self.accumulator = value;
        self.set_zn(value);
        self.penalty();
    }

    /// PHA: push the accumulator.
    pub fn pha(&mut self, _address: u16)
        requires
            old(self).wf(),
        ensures
            final(self)@ == old(self)@.pha(_address),
            final(self).wf(),
            final(self)@.bus.dot() == old(self)@.bus.dot(),
            final(self).skip_cycles == old(self).skip_cycles,
            final(self).cycle == old(self).cycle,
    {
        self.stack_push_8(self.accumulator);
    }

    /// PHP: push the status byte, with bits 4 and 5 set.
    pub fn php(&mut self, _address: u16)
        requires
            old(self).wf(),
        ensures
            final(self)@ == old(self)@.php(_address),
            final(self).wf(),
            final(self)@.bus.dot() == old(self)@.bus.dot(),
            final(self).skip_cycles == old(self).skip_cycles,
            final(self).cycle == old(self).cycle,
    {
        let status: u8 = self.status.get_pushed_byte(true);
        self.stack_push_8(status);
    }

    /// PLA: pull the accumulator.
    pub fn pla(&mut self, _address: u16)
        requires
            old(self).wf(),
        ensures
            final(self)@ == old(self)@.pla(_address),
            final(self).wf(),
            final(self)@.bus.dot() == old(self)@.bus.dot(),
            final(self).skip_cycles == old(self).skip_cycles,
            final(self).cycle == old(self).cycle,
    {
        self.accumulator = self.stack_pop_8();
        self.set_zn(self.accumulator);
    }

    /// PLP: pull the flags. Bits 4 and 5 of the byte are not looked at.
    pub fn plp(&mut self, _address: u16)
        requires
            old(self).wf(),
        ensures
            final(self)@ == old(self)@.plp(_address),
            final(self).wf(),
            final(self)@.bus.dot() == old(self)@.bus.dot(),
            final(self).skip_cycles == old(self).skip_cycles,
            final(self).cycle == old(self).cycle,
    {
        let status: u8 = self.stack_pop_8();
        self.status.carry = status & 0x01 == 0x01;
        self.status.zero = (status >> 1) & 0x01 == 0x01;
        self.status.interrupt = (status >> 2) & 0x01 == 0x01;
        self.status.decimal = (status >> 3) & 0x01 == 0x01;
        // Bits 5 and 4 are not flags of the processor.
        self.status.overflow = (status >> 6) & 0x01 == 0x01;
        self.status.negative = (status >> 7) & 0x01 == 0x01;
    }

    /// ROL: the byte at `address` moves one bit to the left through the carry: the
    /// carry comes in as bit 0 and bit 7 goes to the carry.
    pub fn rol(&mut self, address: u16)
        requires
            old(self).wf(),
        ensures
            final(self)@ == old(self)@.rol(address),
            final(self).wf(),
            final(self)@.bus.dot() == old(self)@.bus.dot(),
            final(self).skip_cycles == old(self).skip_cycles,
            final(self).cycle == old(self).cycle,
    {
        let old_carry: u8 = if self.status.carry {
            1
        } else {
            0
        };
        let value: u8 = self.read_8(address);
        let new_carry: bool = value >> 7 == 1;
        let new_value: u8 = (value << 1) | old_carry;
        self.status.carry = new_carry;
        self.modify(address, new_value);
    }

    /// ROL A: the accumulator moves one bit to the left through the carry.
    pub fn rol_acc(&mut self, _address: u16)
        ensures
            final(self)@ == old(self)@.rol_acc(_address),
            final(self).bus == old(self).bus,
            final(self).skip_cycles == old(self).skip_cycles,
            final(self).cycle == old(self).cycle,
    {
        let old_carry: u8 = if self.status.carry {
            1
        } else {
            0
        };
        let value: u8 = self.accumulator;
        let new_carry: bool = value >> 7 == 1;
        let new_value: u8 = (value << 1) | old_carry;
        self.status.carry = new_carry;
        self.accumulator = new_value;
        self.set_zn(new_value);
    }

    /// ROR: the byte at `address` moves one bit to the right through the carry: the
    /// carry comes in as bit 7 and bit 0 goes to the carry.
    pub fn ror(&mut self, address: u16)
        requires
            old(self).wf(),
        ensures
            final(self)@ == old(self)@.ror(address),
            final(self).wf(),
            final(self)@.bus.dot() == old(self)@.bus.dot(),
            final(self).skip_cycles == old(self).skip_cycles,
            final(self).cycle == old(self).cycle,
    {
        let old_carry: u8 = if self.status.carry {
            1
        } else {
            0
        };
        let value: u8 = self.read_8(address);
        let new_carry: bool = value & 0x01 == 1;
        let new_value: u8 = (value >> 1) | (old_carry << 7);
        self.status.carry = new_carry;
        self.modify(address, new_value);
    }

    /// ROR A: the accumulator moves one bit to the right through the carry.
    pub fn ror_acc(&mut self, _address: u16)
        ensures
            final(self)@ == old(self)@.ror_acc(_address),
            final(self).bus == old(self).bus,
            final(self).skip_cycles == old(self).skip_cycles,
            final(self).cycle == old(self).cycle,
    {
        let old_carry: u8 = if self.status.carry {
            1
        } else {
            0
        };
        let value: u8 = self.accumulator;
        let new_carry: bool = value & 0x01 == 1;
        let new_value: u8 = (value >> 1) | (old_carry << 7);
        self.status.carry = new_carry;
        self.accumulator = new_value;
        self.set_zn(new_value);
    }

    /// RTI: return from an interrupt: pull the flags, then the program counter.
    pub fn rti(&mut self, address: u16)
        requires
            old(self).wf(),
        ensures
            final(self)@ == old(self)@.rti(address),
            final(self).wf(),
            final(self)@.bus.dot() == old(self)@.bus.dot(),
            final(self).skip_cycles == old(self).skip_cycles,
            final(self).cycle == old(self).cycle,
    {
        self.plp(address);
        self.program_counter = self.stack_pop_16();
    }

    /// RTS: return from a routine: pull the program counter and go on behind the
    /// byte that it names.
    pub fn rts(&mut self, _address: u16)
        requires
            old(self).wf(),
        ensures
            final(self)@ == old(self)@.rts(_address),
            final(self).wf(),
            final(self)@.bus.dot() == old(self)@.bus.dot(),
            final(self).skip_cycles == old(self).skip_cycles,
            final(self).cycle == old(self).cycle,
    {
        self.program_counter = self.stack_pop_16().wrapping_add(1);
    }

    /// SBC: take the byte at `address` and the borrow from the accumulator. The
    /// processor adds the complement of the byte; a clear carry is a borrow.
    pub fn sbc(&mut self, address: u16)
        requires
            old(self).wf(),
            old(self).skip_cycles < 255,
        ensures
            final(self)@ == old(self)@.sbc(address),
            final(self).wf(),
            final(self)@.bus.dot() == old(self)@.bus.dot(),
            final(self).skip_cycles <= old(self).skip_cycles + 1,
            final(self).cycle == old(self).cycle,
    {
        let value: u8 = self.read_8(address);
        self.add_with_carry(!value);
        self.penalty();
    }

    /// SEC: set the carry.
    pub fn sec(&mut self, _address: u16)
        ensures
            final(self)@ == old(self)@.sec(_address),
            final(self).bus == old(self).bus,
            final(self).skip_cycles == old(self).skip_cycles,
            final(self).cycle == old(self).cycle,
    {
        self.status.carry = true;
    }

    /// SED: set the decimal flag.
    pub fn sed(&mut self, _address: u16)
        ensures
            final(self)@ == old(self)@.sed(_address),
            final(self).bus == old(self).bus,
            final(self).skip_cycles == old(self).skip_cycles,
            final(self).cycle == old(self).cycle,
    {
        self.status.decimal = true;
    }

    /// SEI: hold interrupts off.
    pub fn sei(&mut self, _address: u16)
        ensures
            final(self)@ == old(self)@.sei(_address),
            final(self).bus == old(self).bus,
            final(self).skip_cycles == old(self).skip_cycles,
            final(self).cycle == old(self).cycle,
    {
        self.status.interrupt = true;
    }

    /// STA: store the accumulator at `address`.
    pub fn sta(&mut self, address: u16)
        requires
            old(self).wf(),
        ensures
            final(self)@ == old(self)@.sta(address),
            final(self).wf(),
            final(self)@.bus.dot() == old(self)@.bus.dot(),
            final(self).skip_cycles == old(self).skip_cycles,
            final(self).cycle == old(self).cycle,
    {
        self.write_8(address, self.accumulator);
    }

    /// STX: store X at `address`.
    pub fn stx(&mut self, address: u16)
        requires
            old(self).wf(),
        ensures
            final(self)@ == old(self)@.stx(address),
            final(self).wf(),
            final(self)@.bus.dot() == old(self)@.bus.dot(),
            final(self).skip_cycles == old(self).skip_cycles,
            final(self).cycle == old(self).cycle,
    {
        self.write_8(address, self.x_index);
    }

    /// STY: store Y at `address`.
    pub fn sty(&mut self, address: u16)
        requires
            old(self).wf(),
        ensures
            final(self)@ == old(self)@.sty(address),
            final(self).wf(),
            final(self)@.bus.dot() == old(self)@.bus.dot(),
            final(self).skip_cycles == old(self).skip_cycles,
            final(self).cycle == old(self).cycle,
    {
        self.write_8(address, self.y_index);
    }

    /// TAX: copy the accumulator to X.
    pub fn tax(&mut self, _address: u16)
        ensures
            final(self)@ == old(self)@.tax(_address),
            final(self).bus == old(self).bus,
            final(self).skip_cycles == old(self).skip_cycles,
            final(self).cycle == old(self).cycle,
    {
        self.x_index = self.accumulator;
        self.set_zn(self.x_index);
    }

    /// TAY: copy the accumulator to Y.
    pub fn tay(&mut self, _address: u16)
        ensures
            final(self)@ == old(self)@.tay(_address),
            final(self).bus == old(self).bus,
            final(self).skip_cycles == old(self).skip_cycles,
            final(self).cycle == old(self).cycle,
    {
        self.y_index = self.accumulator;
        self.set_zn(self.y_index);
    }

    /// TSX: copy the stack pointer to X.
    pub fn tsx(&mut self, _address: u16)
        ensures
            final(self)@ == old(self)@.tsx(_address),
            final(self).bus == old(self).bus,
            final(self).skip_cycles == old(self).skip_cycles,
            final(self).cycle == old(self).cycle,
    {
        self.x_index = self.stack_pointer;
        self.set_zn(self.x_index);
    }

    /// TXA: copy X to the accumulator.
    pub fn txa(&mut self, _address: u16)
        ensures
            final(self)@ == old(self)@.txa(_address),
            final(self).bus == old(self).bus,
            final(self).skip_cycles == old(self).skip_cycles,
            final(self).cycle == old(self).cycle,
    {
        self.accumulator = self.x_index;
        self.set_zn(self.accumulator);
    }

    /// TXS: copy X to the stack pointer; no flag changes.
    pub fn txs(&mut self, _address: u16)
        ensures
            final(self)@ == old(self)@.txs(_address),
            final(self).bus == old(self).bus,
            final(self).skip_cycles == old(self).skip_cycles,
            final(self).cycle == old(self).cycle,
    {
        self.stack_pointer = self.x_index;
    }

    /// TYA: copy Y to the accumulator.
    pub fn tya(&mut self, _address: u16)
        ensures
            final(self)@ == old(self)@.tya(_address),
            final(self).bus == old(self).bus,
            final(self).skip_cycles == old(self).skip_cycles,
            final(self).cycle == old(self).cycle,
    {
        self.accumulator = self.y_index;
        self.set_zn(self.accumulator);
    }
}

} // verus!
