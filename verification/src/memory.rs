use vstd::prelude::*;

verus! {

/// Number of addressable bytes: the full 16-bit address space, 64 KiB.
pub const MEM_MAX: usize = 65536;

/// A flat, fixed-size, byte-addressable store: the memory image a [`crate::CPU`]
/// runs against. Every 16-bit address is readable and writable; the store
/// never grows or shrinks after construction.
pub struct Mem {
    data: Vec<u8>,
}

impl View for Mem {
    type V = Seq<u8>;

    /// The bytes held, as a sequence indexed by address.
    closed spec fn view(&self) -> Seq<u8> {
        self.data@
    }
}

impl Mem {
    /// Well-formed: the store spans the whole 16-bit address space.
    pub open spec fn wf(&self) -> bool {
        self@.len() == MEM_MAX
    }

    /// A fresh store with every byte zero.
    pub fn new() -> (m: Mem)
        ensures
            m.wf(),
            forall|i: int| 0 <= i < MEM_MAX ==> m@[i] == 0u8,
    {
        let mut data: Vec<u8> = Vec::new();
        while data.len() < MEM_MAX
            invariant
                data@.len() <= MEM_MAX,
                forall|i: int| 0 <= i < data@.len() ==> data@[i] == 0u8,
            decreases MEM_MAX - data@.len(),
        {
            data.push(0u8);
        }
        Mem { data }
    }

    /// Clears the store back to all zeroes, in place.
    pub fn init(&mut self)
        requires
            old(self).wf(),
        ensures
            final(self).wf(),
            forall|i: int| 0 <= i < MEM_MAX ==> final(self)@[i] == 0u8,
    {
        let mut i: usize = 0;
        while i < MEM_MAX
            invariant
                self.wf(),
                i <= MEM_MAX,
                forall|j: int| 0 <= j < i ==> self@[j] == 0u8,
            decreases MEM_MAX - i,
        {
            self.data[i] = 0u8;
            i = i + 1;
        }
    }

    /// Reads the byte stored at `address`. Reads are pure: the store is
    /// unchanged.
    pub fn read_byte(&self, address: u16) -> (b: u8)
        requires
            self.wf(),
        ensures
            b == self@[address as int],
    {
        self.data[address as usize]
    }

    /// Stores `byte` at `address`; the one mutator of the store.
    pub fn write_byte(&mut self, address: u16, byte: u8)
        requires
            old(self).wf(),
        ensures
            final(self).wf(),
            final(self)@ == old(self)@.update(address as int, byte),
    {
        self.data[address as usize] = byte;
    }
}

} // verus!
