use crate::cpu::address_mode::AddressMode;
use crate::cpu::bus::{Bus, BusView};
use crate::cpu::instruction::Instruction;
use crate::cpu::opcode::{decode, opcode_mapper, Opcode};
use vstd::prelude::*;

pub mod address_mode;
pub mod bus;
pub mod instruction;
pub mod laws;
pub mod opcode;
pub mod ram;

verus! {

/// The processor: a 6502 without decimal mode.
pub struct Cpu {
    pub accumulator: u8,
    pub x_index: u8,
    pub y_index: u8,
    pub status: Status,
    pub program_counter: u16,
    pub stack_pointer: u8,
    /// Cycles that the instruction in flight still takes.
    pub skip_cycles: u8,
    pub bus: Bus,
    /// Cycles since power on.
    pub cycle: u64,
    /// The address mode of the instruction in flight crossed a page.
    pub page_crossed: bool,
    /// Cycles that a sprite DMA still stalls the processor for.
    pub oamdma_cycles_left: u16,
}

/// The flags of the processor.
#[derive(Clone, Copy, Debug, PartialEq, Eq, Structural)]
pub struct Status {
    pub carry: bool,
    pub zero: bool,
    pub interrupt: bool,
    pub decimal: bool,
    /// Bit 4, the break flag: no flag of the processor itself, it exists only
    /// in a status byte on the stack.
    pub something1: bool,
    /// Bit 5, which reads as 1 in every status byte on the stack.
    pub something2: bool,
    pub overflow: bool,
    pub negative: bool,
}

impl Status {
    /// The status byte that goes on the stack. Bit 5 is always set. Bit 4 is
    /// set where an instruction (PHP, BRK) pushes the byte and clear where an
    /// interrupt does.
    pub open spec fn pushed(self, by_instruction: bool) -> u8 {
        (if self.negative {
            0x80u8
        } else {
            0u8
        }) | (if self.overflow {
            0x40u8
        } else {
            0u8
        }) | 0x20u8 | (if by_instruction {
            0x10u8
        } else {
            0u8
        }) | (if self.decimal {
            0x08u8
        } else {
            0u8
        }) | (if self.interrupt {
            0x04u8
        } else {
            0u8
        }) | (if self.zero {
            0x02u8
        } else {
            0u8
        }) | (if self.carry {
            0x01u8
        } else {
            0u8
        })
    }

    /// The flags after a status byte came off the stack: bits 4 and 5 of
    /// the byte are not looked at.
    pub open spec fn pulled(self, byte: u8) -> Status {
        Status {
            carry: byte & 0x01 == 0x01,
            zero: (byte >> 1) & 0x01 == 0x01,
            interrupt: (byte >> 2) & 0x01 == 0x01,
            decimal: (byte >> 3) & 0x01 == 0x01,
            overflow: (byte >> 6) & 0x01 == 0x01,
            negative: (byte >> 7) & 0x01 == 0x01,
            ..self
        }
    }

    /// The flags after power on: interrupts are held off.
    pub open spec fn power_on() -> Status {
        Status {
            carry: false,
            zero: false,
            interrupt: true,
            decimal: false,
            something1: true,
            something2: true,
            overflow: false,
            negative: false,
        }
    }

    /// The status byte as an interrupt puts it on the stack: bit 5 set, bit
    /// 4 clear.
    pub fn get_as_byte(&self) -> (byte: u8)
        ensures
            byte == self.pushed(false),
    {
        self.get_pushed_byte(false)
    }

    /// The status byte as it goes on the stack.
    pub fn get_pushed_byte(&self, by_instruction: bool) -> (byte: u8)
        ensures
            byte == self.pushed(by_instruction),
    {
        (if self.negative {
            0x80u8
        } else {
            0u8
        }) | (if self.overflow {
            0x40u8
        } else {
            0u8
        }) | 0x20u8 | (if by_instruction {
            0x10u8
        } else {
            0u8
        }) | (if self.decimal {
            0x08u8
        } else {
            0u8
        }) | (if self.interrupt {
            0x04u8
        } else {
            0u8
        }) | (if self.zero {
            0x02u8
        } else {
            0u8
        }) | (if self.carry {
            0x01u8
        } else {
            0u8
        })
    }
}

impl Default for Status {
    fn default() -> (status: Status)
        ensures
            status == Status::power_on(),
    {
        Status {
            carry: false,
            zero: false,
            interrupt: true,
            decimal: false,
            something1: true,
            something2: true,
            overflow: false,
            negative: false,
        }
    }
}

/// The state of the processor, and of all that its bus reaches, as plain
/// values.
pub struct CpuView {
    pub accumulator: u8,
    pub x_index: u8,
    pub y_index: u8,
    pub status: Status,
    pub program_counter: u16,
    pub stack_pointer: u8,
    pub skip_cycles: u8,
    pub bus: BusView,
    pub cycle: u64,
    pub page_crossed: bool,
    pub oamdma_cycles_left: u16,
}

impl View for Cpu {
    type V = CpuView;

    open spec fn view(&self) -> CpuView {
        CpuView {
            accumulator: self.accumulator,
            x_index: self.x_index,
            y_index: self.y_index,
            status: self.status,
            program_counter: self.program_counter,
            stack_pointer: self.stack_pointer,
            skip_cycles: self.skip_cycles,
            bus: self.bus@,
            cycle: self.cycle,
            page_crossed: self.page_crossed,
            oamdma_cycles_left: self.oamdma_cycles_left,
        }
    }
}

/// The most cycles that an instruction can leave to wait for after the
/// cycle that runs it: six of its own and two for a branch to another page.
pub const MAX_SKIP_CYCLES: u8 = 8;

/// Room that the skip counter needs before an instruction runs.
pub const SKIP_CYCLES_ROOM: u8 = 247;

/// Two addresses lie on different pages of 256 bytes.
pub open spec fn pages_differ(address_1: u16, address_2: u16) -> bool {
    address_1 & 0xFF00 != address_2 & 0xFF00
}

/// The address of the stack cell that the stack pointer `pointer` names:
/// the stack is page 1.
pub open spec fn stack_address(pointer: u8) -> u16 {
    (0x0100 + pointer) as u16
}

impl CpuView {
    pub open spec fn wf(self) -> bool {
        self.bus.wf()
    }

    /// The processor can run one more cycle: the counters have room.
    pub open spec fn can_step(self) -> bool {
        self.skip_cycles <= MAX_SKIP_CYCLES && self.cycle < u64::MAX
    }

    /// The processor after it read the byte at `address`.
    pub open spec fn read_8(self, address: u16) -> CpuView {
        CpuView { bus: self.bus.read(address), ..self }
    }

    /// The byte that the processor reads at `address`.
    pub open spec fn read_8_value(self, address: u16) -> u8 {
        self.bus.read_value(address)
    }

    /// The processor after it read the word at `address`: the low byte
    /// first, then the high byte from the address behind it.
    pub open spec fn read_16(self, address: u16) -> CpuView {
        self.read_8(address).read_8(address.wrapping_add(1))
    }

    /// The word that the processor reads at `address`, low byte first.
    pub open spec fn read_16_value(self, address: u16) -> u16 {
        (self.read_8_value(address) as u16) | ((self.read_8(address).read_8_value(
            address.wrapping_add(1),
        ) as u16) << 8)
    }

    /// The processor after it wrote `value` to `address`.
    pub open spec fn write_8(self, address: u16, value: u8) -> CpuView {
        CpuView { bus: self.bus.write(address, value), ..self }
    }

    /// The processor after it pushed a byte: the byte goes to the cell that
    /// the stack pointer names, and the pointer moves down.
    pub open spec fn stack_push_8(self, value: u8) -> CpuView {
        CpuView {
            stack_pointer: self.stack_pointer.wrapping_sub(1),
            ..self.write_8(stack_address(self.stack_pointer), value)
        }
    }

    /// The processor after it pushed a word, high byte first.
    pub open spec fn stack_push_16(self, value: u16) -> CpuView {
        self.stack_push_8((value >> 8) as u8).stack_push_8((value & 0xFF) as u8)
    }

    /// The processor after it pulled a byte: the pointer moves up and the
    /// cell that it then names is read.
    pub open spec fn stack_pop_8(self) -> CpuView {
        CpuView { stack_pointer: self.stack_pointer.wrapping_add(1), ..self }.read_8(
            stack_address(self.stack_pointer.wrapping_add(1)),
        )
    }

    /// The byte that a pull returns.
    pub open spec fn stack_pop_8_value(self) -> u8 {
        self.read_8_value(stack_address(self.stack_pointer.wrapping_add(1)))
    }

    /// The processor after it pulled a word, low byte first.
    pub open spec fn stack_pop_16(self) -> CpuView {
        self.stack_pop_8().stack_pop_8()
    }

    /// The word that a pull of two bytes returns.
    pub open spec fn stack_pop_16_value(self) -> u16 {
        (self.stack_pop_8_value() as u16) | ((self.stack_pop_8().stack_pop_8_value() as u16) << 8)
    }

    /// The processor after the program counter was loaded from the reset
    /// vector at 0xFFFC.
    pub open spec fn reset_program_counter(self) -> CpuView {
        CpuView { program_counter: self.read_16_value(0xFFFC), ..self.read_16(0xFFFC) }
    }

    /// The processor found an interrupt when it sampled the line of the
    /// picture unit.
    pub open spec fn nmi_raised(self) -> bool {
        match self.bus.ppu {
            Some(ppu) => ppu.nmi_line(),
            None => false,
        }
    }

    /// The processor after it sampled the interrupt line.
    pub open spec fn is_interrupted_by_nmi(self) -> CpuView {
        match self.bus.ppu {
            Some(ppu) => CpuView {
                bus: BusView { ppu: Some(ppu.is_nmi()), ..self.bus },
                ..self
            },
            None => self,
        }
    }

    /// The processor after it took the interrupt: the program counter and the
    /// status byte (bit 4 clear) are on the stack, interrupts are held off,
    /// and the program counter is loaded from the vector at 0xFFFA.
    pub open spec fn handle_nmi(self) -> CpuView {
        let pushed = self.stack_push_16(self.program_counter).stack_push_8(
            self.status.pushed(false),
        );
        let masked = CpuView { status: Status { interrupt: true, ..pushed.status }, ..pushed };
        CpuView { program_counter: masked.read_16_value(0xFFFA), ..masked.read_16(0xFFFA) }
    }

    /// The processor after the start of a sprite DMA was noticed: it stalls
    /// for 513 cycles, and for one more if the cycle count is odd.
    pub open spec fn start_oamdma(self) -> CpuView {
        if self.bus.oamdma_occurred {
            CpuView {
                bus: BusView { oamdma_occurred: false, ..self.bus },
                oamdma_cycles_left: (513 + self.cycle % 2) as u16,
                ..self
            }
        } else {
            self
        }
    }

    /// One cycle of a sprite DMA stall. In the last 512 cycles every second
    /// one moves a byte: the byte `(512 - left) / 2` of the page goes to the
    /// sprite memory of the picture unit.
    pub open spec fn oamdma_cycle(self) -> CpuView {
        let left = self.oamdma_cycles_left;
        if left < 513 && left % 2 == 1 {
            let address = self.bus.oamdma_high_byte | (((0x200 - left) as u16) >> 1);
            let value = self.read_8_value(address);
            let read = self.read_8(address);
            CpuView {
                bus: match read.bus.ppu {
                    Some(ppu) => BusView { ppu: Some(ppu.write_oamdma(value)), ..read.bus },
                    None => read.bus,
                },
                oamdma_cycles_left: (left - 1) as u16,
                ..read
            }
        } else {
            CpuView { oamdma_cycles_left: (left - 1) as u16, ..self }
        }
    }

    /// The address at which the operand of an instruction is found, and the
    /// processor after the bytes behind the opcode were read.
    pub open spec fn execute_address_mode(self, address_mode: AddressMode) -> (CpuView, u16) {
        match address_mode {
            AddressMode::Abs => self.abs(),
            AddressMode::AbsX => self.abs_x(),
            AddressMode::AbsY => self.abs_y(),
            AddressMode::Ind => self.ind(),
            AddressMode::IndX => self.ind_x(),
            AddressMode::IndY => self.ind_y(),
            AddressMode::Zpg => self.zpg(),
            AddressMode::ZpgX => self.zpg_x(),
            AddressMode::ZpgY => self.zpg_y(),
            AddressMode::Imp => self.imp(),
            AddressMode::Rel => self.rel(),
            AddressMode::Acc => self.acc(),
            AddressMode::Imm => self.imm(),
            AddressMode::Invalid => (self, 0),
        }
    }

    /// The processor after the instruction ran on the operand at `address`.
    pub open spec fn execute_instruction(self, opcode: Opcode, address: u16) -> CpuView {
        match opcode.instruction {
            Instruction::ADC => self.adc(address),
            Instruction::AND => self.and(address),
            Instruction::ASL => if opcode.address_mode == AddressMode::Acc {
                self.asl_acc(address)
            } else {
                self.asl(address)
            },
            Instruction::BCC => self.bcc(address),
            Instruction::BCS => self.bcs(address),
            Instruction::BEQ => self.beq(address),
            Instruction::BIT => self.bit(address),
            Instruction::BMI => self.bmi(address),
            Instruction::BNE => self.bne(address),
            Instruction::BPL => self.bpl(address),
            Instruction::BRK => self.brk(address),
            Instruction::BVC => self.bvc(address),
            Instruction::BVS => self.bvs(address),
            Instruction::CLC => self.clc(address),
            Instruction::CLD => self.cld(address),
            Instruction::CLI => self.cli(address),
            Instruction::CLV => self.clv(address),
            Instruction::CMP => self.cmp(address),
            Instruction::CPX => self.cpx(address),
            Instruction::CPY => self.cpy(address),
            Instruction::DEC => self.dec(address),
            Instruction::DEX => self.dex(address),
            Instruction::DEY => self.dey(address),
            Instruction::EOR => self.eor(address),
            Instruction::INC => self.inc(address),
            Instruction::INX => self.inx(address),
            Instruction::INY => self.iny(address),
            Instruction::JMP => self.jmp(address),
            Instruction::JSR => self.jsr(address),
            Instruction::LDA => self.lda(address),
            Instruction::LDX => self.ldx(address),
            Instruction::LDY => self.ldy(address),
            Instruction::LSR => if opcode.address_mode == AddressMode::Acc {
                self.lsr_acc(address)
            } else {
                self.lsr(address)
            },
            Instruction::NOP => self.nop(address),
            Instruction::ORA => self.ora(address),
            Instruction::PHA => self.pha(address),
            Instruction::PHP => self.php(address),
            Instruction::PLA => self.pla(address),
            Instruction::PLP => self.plp(address),
            Instruction::ROL => if opcode.address_mode == AddressMode::Acc {
                self.rol_acc(address)
            } else {
                self.rol(address)
            },
            Instruction::ROR => if opcode.address_mode == AddressMode::Acc {
                self.ror_acc(address)
            } else {
                self.ror(address)
            },
            Instruction::RTI => self.rti(address),
            Instruction::RTS => self.rts(address),
            Instruction::SBC => self.sbc(address),
            Instruction::SEC => self.sec(address),
            Instruction::SED => self.sed(address),
            Instruction::SEI => self.sei(address),
            Instruction::STA => self.sta(address),
            Instruction::STX => self.stx(address),
            Instruction::STY => self.sty(address),
            Instruction::TAX => self.tax(address),
            Instruction::TAY => self.tay(address),
            Instruction::TSX => self.tsx(address),
            Instruction::TXA => self.txa(address),
            Instruction::TXS => self.txs(address),
            Instruction::TYA => self.tya(address),
            Instruction::Invalid => self,
        }
    }

    /// The opcode byte at the program counter.
    pub open spec fn next_opcode(self) -> u8 {
        self.read_8_value(self.program_counter)
    }

    /// The processor after the opcode was fetched: the program counter is
    /// behind the opcode, the cycles of the instruction but this one wait,
    /// and no page is crossed yet.
    pub open spec fn fetch_opcode(self) -> CpuView {
        CpuView {
            program_counter: self.program_counter.wrapping_add(1),
            skip_cycles: (self.skip_cycles + decode(self.next_opcode()).cycles - 1) as u8,
            page_crossed: false,
            ..self.read_8(self.program_counter)
        }
    }

    /// The processor after the instruction at the program counter ran, all
    /// at once. A byte that is no official opcode is stepped over.
    #[verifier::opaque]
    pub open spec fn execute_next_opcode(self) -> CpuView {
        let opcode = decode(self.next_opcode());
        let fetched = self.fetch_opcode();
        let addressed = fetched.execute_address_mode(opcode.address_mode);
        addressed.0.execute_instruction(opcode, addressed.1)
    }

    /// What the processor does in a cycle once the cycle is counted and the
    /// interrupt line is sampled: it waits out the instruction in flight,
    /// else a sprite DMA, else it runs the next instruction.
    pub open spec fn run_cycle(self) -> CpuView {
        if self.skip_cycles > 0 {
            CpuView { skip_cycles: (self.skip_cycles - 1) as u8, ..self }
        } else {
            let started = self.start_oamdma();
            if started.oamdma_cycles_left > 0 {
                started.oamdma_cycle()
            } else {
                started.execute_next_opcode()
            }
        }
    }

    /// The processor after it counted the cycle and sampled the interrupt
    /// line, taking the interrupt if there was one.
    pub open spec fn sample_nmi(self) -> CpuView {
        let counted = CpuView { cycle: (self.cycle + 1) as u64, ..self };
        if counted.nmi_raised() {
            counted.is_interrupted_by_nmi().handle_nmi()
        } else {
            counted.is_interrupted_by_nmi()
        }
    }

    /// The processor one cycle later.
    #[verifier::opaque]
    pub open spec fn step(self) -> CpuView {
        self.sample_nmi().run_cycle()
    }
}

/// The processor at power on with `bus` as its bus, before the reset vector
/// is read.
pub open spec fn power_on(bus: BusView) -> CpuView {
    CpuView {
        accumulator: 0,
        x_index: 0,
        y_index: 0,
        status: Status::power_on(),
        program_counter: 0,
        stack_pointer: 0xFD,
        skip_cycles: 0,
        bus,
        cycle: 7,
        page_crossed: false,
        oamdma_cycles_left: 0,
    }
}

impl Cpu {
    pub open spec fn wf(&self) -> bool {
        self@.wf() && self.bus.wf()
    }

    /// The processor after power on and reset: the stack pointer is 0xFD,
    /// interrupts are held off, seven cycles have passed, and the program
    /// counter holds the reset vector.
    pub fn new(bus: Bus) -> (cpu: Cpu)
        requires
            bus.wf(),
        ensures
            cpu.wf(),
            cpu@ == power_on(bus@).reset_program_counter(),
    {
        let mut cpu = Cpu {
            accumulator: 0,
            x_index: 0,
            y_index: 0,
            status: Status::default(),
            program_counter: 0,
            stack_pointer: 0xFD,
            skip_cycles: 0,
            bus,
            cycle: 7,
            page_crossed: false,
            oamdma_cycles_left: 0,
        };
        cpu.reset_program_counter();
        cpu
    }

    pub fn read_8(&mut self, address: u16) -> (value: u8)
        requires
            old(self).wf(),
        ensures
            final(self).wf(),
            value == old(self)@.read_8_value(address),
            final(self)@ == old(self)@.read_8(address),
            final(self)@.bus.dot() == old(self)@.bus.dot(),
    {
        self.bus.read(address)
    }

    pub fn read_16(&mut self, address: u16) -> (value: u16)
        requires
            old(self).wf(),
        ensures
            final(self).wf(),
            value == old(self)@.read_16_value(address),
            final(self)@ == old(self)@.read_16(address),
            final(self)@.bus.dot() == old(self)@.bus.dot(),
    {
        let lower_byte: u16 = self.bus.read(address) as u16;
        let higher_byte: u16 = self.bus.read(address.wrapping_add(1)) as u16;
        let a: u16 = higher_byte << 8;
        lower_byte | a
    }

    pub fn write_8(&mut self, address: u16, value: u8)
        requires
            old(self).wf(),
        ensures
            final(self).wf(),
            final(self)@ == old(self)@.write_8(address, value),
            final(self)@.bus.dot() == old(self)@.bus.dot(),
    {
        self.bus.write(address, value);
    }

    pub fn stack_push_8(&mut self, value: u8)
        requires
            old(self).wf(),
        ensures
            final(self).wf(),
            final(self)@ == old(self)@.stack_push_8(value),
            final(self)@.bus.dot() == old(self)@.bus.dot(),
    {
        self.write_8(0x0100 + self.stack_pointer as u16, value);
        self.stack_pointer = self.stack_pointer.wrapping_sub(1);
    }

    pub fn stack_push_16(&mut self, value: u16)
        requires
            old(self).wf(),
        ensures
            final(self).wf(),
            final(self)@ == old(self)@.stack_push_16(value),
            final(self)@.bus.dot() == old(self)@.bus.dot(),
    {
        self.stack_push_8((value >> 8) as u8);
        self.stack_push_8((value & 0xFF) as u8);
    }

    pub fn stack_pop_8(&mut self) -> (value: u8)
        requires
            old(self).wf(),
        ensures
            final(self).wf(),
            value == old(self)@.stack_pop_8_value(),
            final(self)@ == old(self)@.stack_pop_8(),
            final(self)@.bus.dot() == old(self)@.bus.dot(),
    {
        self.stack_pointer = self.stack_pointer.wrapping_add(1);
        self.read_8(0x0100 + self.stack_pointer as u16)
    }

    pub fn stack_pop_16(&mut self) -> (value: u16)
        requires
            old(self).wf(),
        ensures
            final(self).wf(),
            value == old(self)@.stack_pop_16_value(),
            final(self)@ == old(self)@.stack_pop_16(),
            final(self)@.bus.dot() == old(self)@.bus.dot(),
    {
        let low: u16 = self.stack_pop_8() as u16;
        let high: u16 = self.stack_pop_8() as u16;
        low | (high << 8)
    }

    fn reset_program_counter(&mut self)
        requires
            old(self).wf(),
        ensures
            final(self).wf(),
            final(self)@ == old(self)@.reset_program_counter(),
            final(self)@.bus.dot() == old(self)@.bus.dot(),
    {
        self.program_counter = self.read_16(0xFFFC);
    }

    pub fn set_program_counter(&mut self, new_count: u16)
        ensures
            final(self)@ == (CpuView { program_counter: new_count, ..old(self)@ }),
            final(self).bus == old(self).bus,
    {
        self.program_counter = new_count;
    }

    /// Runs the processor for one cycle.
    pub fn step(&mut self)
        requires
            old(self).wf(),
            old(self)@.can_step(),
        ensures
            final(self).wf(),
            final(self)@ == old(self)@.step(),
            final(self)@.bus.dot() == old(self)@.bus.dot(),
            final(self).cycle == old(self).cycle + 1,
            final(self).skip_cycles <= MAX_SKIP_CYCLES,
    {
        reveal(CpuView::step);
        self.cycle += 1;
        if self.is_interrupted_by_nmi() {
            self.handle_nmi();
        }
        if self.skip_cycles > 0 {
            self.skip_cycles -= 1;
            return ;
        }
        if self.bus.oamdma_occurred {
            self.bus.oamdma_occurred = false;
            self.oamdma_cycles_left = 513 + ((self.cycle % 2) as u16);
        }
        if self.oamdma_cycles_left > 0 {
            self.oamdma_cycle();
            return ;
        }
        self.execute_next_opcode();
    }

    fn oamdma_cycle(&mut self)
        requires
            old(self).wf(),
            old(self).oamdma_cycles_left > 0,
        ensures
            final(self).wf(),
            final(self)@ == old(self)@.oamdma_cycle(),
            final(self)@.bus.dot() == old(self)@.bus.dot(),
            final(self).cycle == old(self).cycle,
            final(self).skip_cycles == old(self).skip_cycles,
    {
        if self.oamdma_cycles_left < 513 && self.oamdma_cycles_left % 2 == 1 {
            let address: u16 = self.bus.oamdma_high_byte | ((0x200 - self.oamdma_cycles_left) >> 1);
            let value: u8 = self.read_8(address);
            match &mut self.bus.ppu {
                Some(ppu) => {
                    ppu.write_oamdma(value);
                },
                None => {},
            }
        }
        self.oamdma_cycles_left -= 1;
    }

    /// Samples the interrupt line of the picture unit.
    pub fn is_interrupted_by_nmi(&mut self) -> (raised: bool)
        requires
            old(self).wf(),
        ensures
            final(self).wf(),
            raised == old(self)@.nmi_raised(),
            final(self)@ == old(self)@.is_interrupted_by_nmi(),
            final(self)@.bus.dot() == old(self)@.bus.dot(),
            final(self).cycle == old(self).cycle,
            final(self).skip_cycles == old(self).skip_cycles,
    {
        match &mut self.bus.ppu {
            Some(ppu) => ppu.is_nmi(),
            None => false,
        }
    }

    /// Takes the interrupt of the picture unit.
    pub fn handle_nmi(&mut self)
        requires
            old(self).wf(),
        ensures
            final(self).wf(),
            final(self)@ == old(self)@.handle_nmi(),
            final(self)@.bus.dot() == old(self)@.bus.dot(),
            final(self).cycle == old(self).cycle,
            final(self).skip_cycles == old(self).skip_cycles,
    {
        self.stack_push_16(self.program_counter);
        self.stack_push_8(self.status.get_as_byte());
        self.status.interrupt = true;
        let nmi_address: u16 = self.read_16(0xFFFA);
        self.set_program_counter(nmi_address);
    }

    /// Reads the opcode byte at the program counter.
    pub fn get_next_opcode(&mut self) -> (opcode: u8)
        requires
            old(self).wf(),
        ensures
            final(self).wf(),
            opcode == old(self)@.next_opcode(),
            final(self)@ == old(self)@.read_8(old(self)@.program_counter),
            final(self)@.bus.dot() == old(self)@.bus.dot(),
    {
        self.read_8(self.program_counter)
    }

    /// Runs the instruction at the program counter, all at once; the cycles
    /// that it takes beyond this one are left in the skip counter.
    pub fn execute_next_opcode(&mut self)
        requires
            old(self).wf(),
            old(self).skip_cycles <= SKIP_CYCLES_ROOM,
        ensures
            final(self).wf(),
            final(self)@ == old(self)@.execute_next_opcode(),
            final(self)@.bus.dot() == old(self)@.bus.dot(),
            final(self).skip_cycles <= old(self).skip_cycles + MAX_SKIP_CYCLES,
            final(self).cycle == old(self).cycle,
    {
        reveal(CpuView::execute_next_opcode);
        let next_opcode: u8 = self.get_next_opcode();
        let op: Opcode = opcode_mapper(next_opcode);
        self.program_counter = self.program_counter.wrapping_add(1);
        self.skip_cycles += op.cycles - 1;
        self.page_crossed = false;  // Reset page_crossed flag
        if op.instruction == Instruction::Invalid {
            return ;
        }
        let address: u16 = self.execute_address_mode(&op.address_mode);
        self.execute_instruction(&op, address);
    }

    fn crossing_page(&self, address_1: u16, address_2: u16) -> (crossing: bool)
        ensures
            crossing == pages_differ(address_1, address_2),
    {
        address_1 & 0xFF00 != address_2 & 0xFF00
    }

    fn execute_address_mode(&mut self, address_mode: &AddressMode) -> (address: u16)
        requires
            old(self).wf(),
            *address_mode != AddressMode::Invalid,
        ensures
            final(self).wf(),
            (final(self)@, address) == old(self)@.execute_address_mode(*address_mode),
            final(self)@.bus.dot() == old(self)@.bus.dot(),
            final(self).skip_cycles == old(self).skip_cycles,
            final(self).cycle == old(self).cycle,
    {
        match address_mode {
            AddressMode::Abs => self.abs(),
            AddressMode::AbsX => self.abs_x(),
            AddressMode::AbsY => self.abs_y(),
            AddressMode::Ind => self.ind(),
            AddressMode::IndX => self.ind_x(),
            AddressMode::IndY => self.ind_y(),
            AddressMode::Zpg => self.zpg(),
            AddressMode::ZpgX => self.zpg_x(),
            AddressMode::ZpgY => self.zpg_y(),
            AddressMode::Imp => self.imp(),
            AddressMode::Rel => self.rel(),
            AddressMode::Acc => self.acc(),
            AddressMode::Imm => self.imm(),
            AddressMode::Invalid => 0,
        }
    }

    fn execute_instruction(&mut self, opcode: &Opcode, address: u16)
        requires
            old(self).wf(),
            opcode.instruction != Instruction::Invalid,
            old(self).skip_cycles <= 253,
        ensures
            final(self).wf(),
            final(self)@ == old(self)@.execute_instruction(*opcode, address),
            final(self)@.bus.dot() == old(self)@.bus.dot(),
            final(self).skip_cycles <= old(self).skip_cycles + 2,
            final(self).cycle == old(self).cycle,
    {
        let accumulator_mode: bool = opcode.address_mode == AddressMode::Acc;
        match opcode.instruction {
            Instruction::ADC => self.adc(address),
            Instruction::AND => self.and(address),
            Instruction::ASL => if accumulator_mode {
                self.asl_acc(address)
            } else {
                self.asl(address)
            },
            Instruction::BCC => self.bcc(address),
            Instruction::BCS => self.bcs(address),
            Instruction::BEQ => self.beq(address),
            Instruction::BIT => self.bit(address),
            Instruction::BMI => self.bmi(address),
            Instruction::BNE => self.bne(address),
            Instruction::BPL => self.bpl(address),
            Instruction::BRK => self.brk(address),
            Instruction::BVC => self.bvc(address),
            Instruction::BVS => self.bvs(address),
            Instruction::CLC => self.clc(address),
            Instruction::CLD => self.cld(address),
            Instruction::CLI => self.cli(address),
            Instruction::CLV => self.clv(address),
            Instruction::CMP => self.cmp(address),
            Instruction::CPX => self.cpx(address),
            Instruction::CPY => self.cpy(address),
            Instruction::DEC => self.dec(address),
            Instruction::DEX => self.dex(address),
            Instruction::DEY => self.dey(address),
            Instruction::EOR => self.eor(address),
            Instruction::INC => self.inc(address),
            Instruction::INX => self.inx(address),
            Instruction::INY => self.iny(address),
            Instruction::JMP => self.jmp(address),
            Instruction::JSR => self.jsr(address),
            Instruction::LDA => self.lda(address),
            Instruction::LDX => self.ldx(address),
            Instruction::LDY => self.ldy(address),
            Instruction::LSR => if accumulator_mode {
                self.lsr_acc(address)
            } else {
                self.lsr(address)
            },
            Instruction::NOP => self.nop(address),
            Instruction::ORA => self.ora(address),
            Instruction::PHA => self.pha(address),
            Instruction::PHP => self.php(address),
            Instruction::PLA => self.pla(address),
            Instruction::PLP => self.plp(address),
            Instruction::ROL => if accumulator_mode {
                self.rol_acc(address)
            } else {
                self.rol(address)
            },
            Instruction::ROR => if accumulator_mode {
                self.ror_acc(address)
            } else {
                self.ror(address)
            },
            Instruction::RTI => self.rti(address),
            Instruction::RTS => self.rts(address),
            Instruction::SBC => self.sbc(address),
            Instruction::SEC => self.sec(address),
            Instruction::SED => self.sed(address),
            Instruction::SEI => self.sei(address),
            Instruction::STA => self.sta(address),
            Instruction::STX => self.stx(address),
            Instruction::STY => self.sty(address),
            Instruction::TAX => self.tax(address),
            Instruction::TAY => self.tay(address),
            Instruction::TSX => self.tsx(address),
            Instruction::TXA => self.txa(address),
            Instruction::TXS => self.txs(address),
            Instruction::TYA => self.tya(address),
            Instruction::Invalid => {},
        }
    }
}

} // verus!
