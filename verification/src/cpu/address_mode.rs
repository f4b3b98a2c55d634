use crate::cpu::{pages_differ, Cpu, CpuView};
use vstd::prelude::*;

verus! {

/// How an instruction finds its operand.
#[derive(Clone, Copy, Debug, PartialEq, Eq, Structural)]
pub enum AddressMode {
    Invalid,
    /// Absolute
    Abs,
    /// Absolute, indexed by X
    AbsX,
    /// Absolute, indexed by Y
    AbsY,
    /// Indirect
    Ind,
    /// Indexed indirect
    IndX,
    /// Indirect indexed
    IndY,
    /// Zero page
    Zpg,
    /// Zero page, indexed by X
    ZpgX,
    /// Zero page, indexed by Y
    ZpgY,
    /// Implied
    Imp,
    /// Relative
    Rel,
    /// Accumulator
    Acc,
    /// Immediate
    Imm,
}

impl CpuView {
    /// The byte at the program counter, and the processor after it read the
    /// byte and moved the program counter behind it.
    pub open spec fn fetch_operand(self) -> (CpuView, u8) {
        (
            CpuView {
                program_counter: self.program_counter.wrapping_add(1),
                ..self.read_8(self.program_counter)
            },
            self.read_8_value(self.program_counter),
        )
    }

    /// The word whose low byte is at `low_address` and whose high byte is
    /// at `high_address`, and the processor after it read the two, the low
    /// byte first.
    pub open spec fn read_pointer(self, low_address: u16, high_address: u16) -> (CpuView, u16) {
        (
            self.read_8(low_address).read_8(high_address),
            (self.read_8_value(low_address) as u16) | ((self.read_8(low_address).read_8_value(
                high_address,
            ) as u16) << 8),
        )
    }

    /// Absolute: the two bytes behind the opcode are the address, low byte
    /// first.
    pub open spec fn abs(self) -> (CpuView, u16) {
        let low = self.fetch_operand();
        let high = low.0.fetch_operand();
        (high.0, (low.1 as u16) | ((high.1 as u16) << 8))
    }

    /// Absolute with an index: the index is added to the address behind the
    /// opcode. A carry out of the low byte means that a page was crossed.
    pub open spec fn abs_indexed(self, index: u8) -> (CpuView, u16) {
        let low = self.fetch_operand();
        let high = low.0.fetch_operand();
        let low_indexed = (low.1 + index) as u16;
        (
            CpuView { page_crossed: low_indexed > 0xFF, ..high.0 },
            low_indexed.wrapping_add((high.1 as u16) << 8),
        )
    }

    pub open spec fn abs_x(self) -> (CpuView, u16) {
        self.abs_indexed(self.x_index)
    }

    pub open spec fn abs_y(self) -> (CpuView, u16) {
        self.abs_indexed(self.y_index)
    }

    /// Indirect: the address behind the opcode names the cell that holds the
    /// address. The high byte is taken from the same page as the low byte:
    /// behind a cell at the end of a page comes the first cell of that page.
    pub open spec fn ind(self) -> (CpuView, u16) {
        let pointer = self.abs();
        pointer.0.read_pointer(
            pointer.1,
            (pointer.1 & 0xFF00) | (pointer.1.wrapping_add(1) & 0x00FF),
        )
    }

    /// Indexed indirect: the byte behind the opcode plus X names the zero
    /// page cell that holds the address; the sum stays in the zero page.
    pub open spec fn ind_x(self) -> (CpuView, u16) {
        let operand = self.fetch_operand();
        let cell = operand.1.wrapping_add(self.x_index);
        operand.0.read_pointer(cell as u16, cell.wrapping_add(1) as u16)
    }

    /// Indirect indexed: the byte behind the opcode names the zero page cell
    /// that holds an address, to which Y is added. The sum may lie on
    /// another page than the address.
    pub open spec fn ind_y(self) -> (CpuView, u16) {
        let operand = self.fetch_operand();
        let pointer = operand.0.read_pointer(operand.1 as u16, operand.1.wrapping_add(1) as u16);
        let address = pointer.1.wrapping_add(self.y_index as u16);
        (CpuView { page_crossed: pages_differ(pointer.1, address), ..pointer.0 }, address)
    }

    /// Zero page: the byte behind the opcode is the address.
    pub open spec fn zpg(self) -> (CpuView, u16) {
        let operand = self.fetch_operand();
        (operand.0, operand.1 as u16)
    }

    /// Zero page with an index: the sum stays in the zero page.
    pub open spec fn zpg_indexed(self, index: u8) -> (CpuView, u16) {
        let operand = self.fetch_operand();
        (operand.0, operand.1.wrapping_add(index) as u16)
    }

    pub open spec fn zpg_x(self) -> (CpuView, u16) {
        self.zpg_indexed(self.x_index)
    }

    pub open spec fn zpg_y(self) -> (CpuView, u16) {
        self.zpg_indexed(self.y_index)
    }

    /// Implied: there is no operand.
    pub open spec fn imp(self) -> (CpuView, u16) {
        (self, 0)
    }

    /// Relative: the byte behind the opcode is a signed distance from the
    /// program counter behind it.
    pub open spec fn rel(self) -> (CpuView, u16) {
        let operand = self.fetch_operand();
        let offset = operand.1 as u16;
        (
            operand.0,
            if offset < 0x80 {
                offset.wrapping_add(operand.0.program_counter)
            } else {
                offset.wrapping_add(operand.0.program_counter).wrapping_add(0xFF00)
            },
        )
    }

    /// Accumulator: the operand is the accumulator.
    pub open spec fn acc(self) -> (CpuView, u16) {
        (self, 0)
    }

    /// Immediate: the byte behind the opcode is the operand.
    pub open spec fn imm(self) -> (CpuView, u16) {
        (
            CpuView { program_counter: self.program_counter.wrapping_add(1), ..self },
            self.program_counter,
        )
    }
}

impl Cpu {
    fn fetch_operand(&mut self) -> (value: u8)
        requires
            old(self).wf(),
        ensures
            final(self).wf(),
            (final(self)@, value) == old(self)@.fetch_operand(),
            final(self)@.bus.dot() == old(self)@.bus.dot(),
            final(self).skip_cycles == old(self).skip_cycles,
            final(self).cycle == old(self).cycle,
    {
        let value: u8 = self.read_8(self.program_counter);
        self.program_counter = self.program_counter.wrapping_add(1);
        value
    }

    fn read_pointer(&mut self, low_address: u16, high_address: u16) -> (address: u16)
        requires
            old(self).wf(),
        ensures
            final(self).wf(),
            (final(self)@, address) == old(self)@.read_pointer(low_address, high_address),
            final(self)@.bus.dot() == old(self)@.bus.dot(),
            final(self).skip_cycles == old(self).skip_cycles,
            final(self).cycle == old(self).cycle,
    {
        let byte_low: u16 = self.read_8(low_address) as u16;
        let byte_high: u16 = self.read_8(high_address) as u16;
        byte_low | (byte_high << 8)
    }

    pub fn abs(&mut self) -> (address: u16)
        requires
            old(self).wf(),
        ensures
            final(self).wf(),
            (final(self)@, address) == old(self)@.abs(),
            final(self)@.bus.dot() == old(self)@.bus.dot(),
            final(self).skip_cycles == old(self).skip_cycles,
            final(self).cycle == old(self).cycle,
    {
        let address_low: u16 = self.fetch_operand() as u16;
        let address_high: u16 = self.fetch_operand() as u16;
        address_low | (address_high << 8)
    }

    fn abs_indexed(&mut self, index: u8) -> (address: u16)
        requires
            old(self).wf(),
        ensures
            final(self).wf(),
            (final(self)@, address) == old(self)@.abs_indexed(index),
            final(self)@.bus.dot() == old(self)@.bus.dot(),
            final(self).skip_cycles == old(self).skip_cycles,
            final(self).cycle == old(self).cycle,
    {
        let address_low: u16 = self.fetch_operand() as u16;
        let address_high: u16 = self.fetch_operand() as u16;
        let address_low_indexed: u16 = address_low + index as u16;
        self.page_crossed = address_low_indexed > 0xFF;
        address_low_indexed.wrapping_add(address_high << 8)
    }

    pub fn abs_x(&mut self) -> (address: u16)
        requires
            old(self).wf(),
        ensures
            final(self).wf(),
            (final(self)@, address) == old(self)@.abs_x(),
            final(self)@.bus.dot() == old(self)@.bus.dot(),
            final(self).skip_cycles == old(self).skip_cycles,
            final(self).cycle == old(self).cycle,
    {
        self.abs_indexed(self.x_index)
    }

    pub fn abs_y(&mut self) -> (address: u16)
        requires
            old(self).wf(),
        ensures
            final(self).wf(),
            (final(self)@, address) == old(self)@.abs_y(),
            final(self)@.bus.dot() == old(self)@.bus.dot(),
            final(self).skip_cycles == old(self).skip_cycles,
            final(self).cycle == old(self).cycle,
    {
        self.abs_indexed(self.y_index)
    }

    pub fn ind(&mut self) -> (address: u16)
        requires
            old(self).wf(),
        ensures
            final(self).wf(),
            (final(self)@, address) == old(self)@.ind(),
            final(self)@.bus.dot() == old(self)@.bus.dot(),
            final(self).skip_cycles == old(self).skip_cycles,
            final(self).cycle == old(self).cycle,
    {
        let address: u16 = self.abs();
        self.read_pointer(address, (address & 0xFF00) | (address.wrapping_add(1) & 0x00FF))
    }

    pub fn ind_x(&mut self) -> (address: u16)
        requires
            old(self).wf(),
        ensures
            final(self).wf(),
            (final(self)@, address) == old(self)@.ind_x(),
            final(self)@.bus.dot() == old(self)@.bus.dot(),
            final(self).skip_cycles == old(self).skip_cycles,
            final(self).cycle == old(self).cycle,
    {
        let a: u8 = self.fetch_operand().wrapping_add(self.x_index);
        let b: u8 = a.wrapping_add(1);
        self.read_pointer(a as u16, b as u16)
    }

    pub fn ind_y(&mut self) -> (address: u16)
        requires
            old(self).wf(),
        ensures
            final(self).wf(),
            (final(self)@, address) == old(self)@.ind_y(),
            final(self)@.bus.dot() == old(self)@.bus.dot(),
            final(self).skip_cycles == old(self).skip_cycles,
            final(self).cycle == old(self).cycle,
    {
        let a: u8 = self.fetch_operand();
        let b: u8 = a.wrapping_add(1);
        let address: u16 = self.read_pointer(a as u16, b as u16);
        let address_y: u16 = address.wrapping_add(self.y_index as u16);
        self.page_crossed = self.crossing_page(address, address_y);
        address_y
    }

    pub fn zpg(&mut self) -> (address: u16)
        requires
            old(self).wf(),
        ensures
            final(self).wf(),
            (final(self)@, address) == old(self)@.zpg(),
            final(self)@.bus.dot() == old(self)@.bus.dot(),
            final(self).skip_cycles == old(self).skip_cycles,
            final(self).cycle == old(self).cycle,
    {
        let value: u8 = self.fetch_operand();
        value as u16
    }

    pub fn zpg_x(&mut self) -> (address: u16)
        requires
            old(self).wf(),
        ensures
            final(self).wf(),
            (final(self)@, address) == old(self)@.zpg_x(),
            final(self)@.bus.dot() == old(self)@.bus.dot(),
            final(self).skip_cycles == old(self).skip_cycles,
            final(self).cycle == old(self).cycle,
    {
        let value: u8 = self.fetch_operand().wrapping_add(self.x_index);
        value as u16
    }

    pub fn zpg_y(&mut self) -> (address: u16)
        requires
            old(self).wf(),
        ensures
            final(self).wf(),
            (final(self)@, address) == old(self)@.zpg_y(),
            final(self)@.bus.dot() == old(self)@.bus.dot(),
            final(self).skip_cycles == old(self).skip_cycles,
            final(self).cycle == old(self).cycle,
    {
        let value: u8 = self.fetch_operand().wrapping_add(self.y_index);
        value as u16
    }

    pub fn imp(&self) -> (address: u16)
        ensures
            (self@, address) == self@.imp(),
    {
        0
    }

    pub fn rel(&mut self) -> (address: u16)
        requires
            old(self).wf(),
        ensures
            final(self).wf(),
            (final(self)@, address) == old(self)@.rel(),
            final(self)@.bus.dot() == old(self)@.bus.dot(),
            final(self).skip_cycles == old(self).skip_cycles,
            final(self).cycle == old(self).cycle,
    {
        let offset: u16 = self.fetch_operand() as u16;
        if offset < 0x80u16 {
            offset.wrapping_add(self.program_counter)
        } else {
            offset.wrapping_add(self.program_counter).wrapping_add(0xFF00u16)
        }
    }

    pub fn acc(&self) -> (address: u16)
        ensures
            (self@, address) == self@.acc(),
    {
        0
    }

    pub fn imm(&mut self) -> (address: u16)
        requires
            old(self).wf(),
        ensures
            final(self).wf(),
            (final(self)@, address) == old(self)@.imm(),
            final(self)@.bus.dot() == old(self)@.bus.dot(),
            final(self).skip_cycles == old(self).skip_cycles,
            final(self).cycle == old(self).cycle,
    {
        let pc: u16 = self.program_counter;
        self.program_counter = self.program_counter.wrapping_add(1);
        pc
    }
}

} // verus!
