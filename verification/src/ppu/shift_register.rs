use vstd::prelude::*;

verus! {

/// A shift register that is some bytes wide. Byte 0 is the end that is read;
/// the last byte is the end that is loaded.
pub struct ShiftRegister {
    pub inner_vec: Vec<u8>,
}

impl View for ShiftRegister {
    type V = Seq<u8>;

    open spec fn view(&self) -> Seq<u8> {
        self.inner_vec@
    }
}

/// The bytes after the register moved one whole byte towards the read end:
/// byte 0 is lost and a zero byte enters at the load end.
pub open spec fn bytes_shifted(bytes: Seq<u8>) -> Seq<u8> {
    if bytes.len() == 0 {
        bytes
    } else {
        bytes.drop_first().push(0u8)
    }
}

/// The bytes after the register moved one bit towards the read end: every
/// byte loses its bit 0 and takes bit 0 of the next byte as its bit 7; the
/// last byte takes a zero.
pub open spec fn bits_shifted(bytes: Seq<u8>) -> Seq<u8> {
    Seq::new(
        bytes.len(),
        |i: int|
            if i + 1 < bytes.len() {
                (bytes[i] >> 1) | ((bytes[i + 1] & 1) << 7)
            } else {
                bytes[i] >> 1
            },
    )
}

impl ShiftRegister {
    /// A register holds at least one byte.
    pub open spec fn wf(&self) -> bool {
        self@.len() > 0
    }

    /// A register of `size` zero bytes.
    pub fn new(size: usize) -> (register: ShiftRegister)
        requires
            size > 0,
        ensures
            register.wf(),
            register@ == Seq::new(size as nat, |i: int| 0u8),
    {
        let register = ShiftRegister { inner_vec: vec![0u8; size] };
        assert(register.inner_vec@ =~= Seq::new(size as nat, |i: int| 0u8));
        register
    }

    /// The byte at the read end.
    pub fn get(&self) -> (value: u8)
        requires
            self.wf(),
        ensures
            value == self@[0],
    {
        self.inner_vec[0]
    }

    /// Replaces the byte at the load end.
    pub fn set(&mut self, value: u8)
        ensures
            old(self)@.len() > 0 ==> final(self)@ == old(self)@.update(
                old(self)@.len() - 1,
                value,
            ),
            old(self)@.len() == 0 ==> final(self)@ == old(self)@,
    {
        let len: usize = self.inner_vec.len();
        if len > 0 {
            self.inner_vec[len - 1] = value;
        }
    }

    /// Moves the register one byte towards the read end.
    pub fn shift_bytes(&mut self)
        ensures
            final(self)@ == bytes_shifted(old(self)@),
    {
        let len: usize = self.inner_vec.len();
        if len == 0 {
            return ;
        }
        let mut i: usize = 1;
        while i < len
            invariant
                1 <= i <= len,
                self.inner_vec@.len() == len,
                old(self)@.len() == len,
                forall|j: int| 0 <= j < i - 1 ==> self.inner_vec@[j] == old(self)@[j + 1],
                forall|j: int| i - 1 <= j < len ==> self.inner_vec@[j] == old(self)@[j],
            decreases len - i,
        {
            let next: u8 = self.inner_vec[i];
            self.inner_vec[i - 1] = next;
            i += 1;
        }
        self.inner_vec[len - 1] = 0;
        assert(self.inner_vec@ =~= bytes_shifted(old(self)@));
    }

    /// Moves the register one bit towards the read end.
    pub fn shift_bits(&mut self)
        ensures
            final(self)@ == bits_shifted(old(self)@),
    {
        let len: usize = self.inner_vec.len();
        if len == 0 {
            assert(self.inner_vec@ =~= bits_shifted(old(self)@));
            return ;
        }
        let mut i: usize = 1;
        while i < len
            invariant
                1 <= i <= len,
                self.inner_vec@.len() == len,
                old(self)@.len() == len,
                forall|j: int| 0 <= j < i - 1 ==> self.inner_vec@[j] == bits_shifted(old(self)@)[j],
                forall|j: int| i - 1 <= j < len ==> self.inner_vec@[j] == old(self)@[j],
            decreases len - i,
        {
            let low: u8 = self.inner_vec[i - 1] >> 1;
            let carry: u8 = (self.inner_vec[i] & 1) << 7;
            self.inner_vec[i - 1] = low | carry;
            i += 1;
        }
        let last: u8 = self.inner_vec[len - 1] >> 1;
        self.inner_vec[len - 1] = last;
        assert(self.inner_vec@ =~= bits_shifted(old(self)@));
    }
}

} // verus!
