use vstd::prelude::*;

verus! {

/// A flat block of byte-addressed memory of fixed size.
pub struct Ram {
    pub size: usize,
    pub mem: Vec<u8>,
}

impl View for Ram {
    type V = Seq<u8>;

    open spec fn view(&self) -> Seq<u8> {
        self.mem@
    }
}

impl Ram {
    /// The backing store has exactly `size` cells.
    pub open spec fn wf(&self) -> bool {
        self.mem@.len() == self.size
    }

    /// A block of `size` bytes, all zero.
    pub fn new(size: usize) -> (ram: Ram)
        ensures
            ram.wf(),
            ram.size == size,
            ram@ == Seq::new(size as nat, |i: int| 0u8),
    {
        let ram = Ram { size, mem: vec![0u8; size] };
        assert(ram.mem@ =~= Seq::new(size as nat, |i: int| 0u8));
        ram
    }

    pub fn read(&self, address: usize) -> (value: u8)
        requires
            self.wf(),
            address < self.size,
        ensures
            value == self@[address as int],
    {
        self.mem[address]
    }

    pub fn write(&mut self, address: usize, value: u8)
        requires
            old(self).wf(),
            address < old(self).size,
        ensures
            final(self).wf(),
            final(self).size == old(self).size,
            final(self)@ == old(self)@.update(address as int, value),
    {
        self.mem[address] = value;
    }
}

impl Default for Ram {
    /// The 2 KiB work RAM of the console.
    fn default() -> (ram: Ram)
        ensures
            ram.wf(),
            ram.size == 0x0800,
            ram@ == Seq::new(0x0800, |i: int| 0u8),
    {
        Ram::new(0x0800)
    }
}

} // verus!
