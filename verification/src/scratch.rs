//! The staging buffer the host writes inbound bytes into.
//!
//! A host call can return only one 32-bit word, so variable-length results
//! travel the other way: before delivering data, the host asks the module to
//! reserve space, writes the bytes into that space, and the module then takes
//! the whole buffer as an owned byte sequence.  Each execution context owns
//! its own buffer, so concurrent deliveries to different contexts never race.

use vstd::prelude::*;

verus! {

/// A per-context byte buffer, resized and zero-cleared for every inbound
/// host write and emptied when its contents are consumed.
pub struct ScratchBuffer {
    data: Vec<u8>,
}

impl View for ScratchBuffer {
    type V = Seq<u8>;

    closed spec fn view(&self) -> Seq<u8> {
        self.data@
    }
}

impl ScratchBuffer {
    pub fn new() -> (r: Self)
        ensures
            r@ == Seq::<u8>::empty(),
    {
        let data: Vec<u8> = Vec::new();
        assert(data@ =~= Seq::<u8>::empty());
        ScratchBuffer { data }
    }

    pub fn len(&self) -> (r: usize)
        ensures
            r == self@.len(),
    {
        self.data.len()
    }

    /// Discards the previous contents and makes room for exactly `space`
    /// bytes, all zero, for the host to overwrite.
    pub fn reserve(&mut self, space: usize)
        ensures
            final(self)@ == Seq::new(space as nat, |i: int| 0u8),
    {
        self.data.clear();
        let mut i: usize = 0;
        while i < space
            invariant
                i <= space,
                self.data@ == Seq::new(i as nat, |j: int| 0u8),
            decreases space - i,
        {
            self.data.push(0u8);
            assert(self.data@ =~= Seq::new((i + 1) as nat, |j: int| 0u8));
            i = i + 1;
        }
    }

    /// Records one byte the host wrote into the reserved space.
    pub fn write(&mut self, i: usize, byte: u8)
        requires
            i < old(self)@.len(),
        ensures
            final(self)@ == old(self)@.update(i as int, byte),
    {
        self.data.set(i, byte);
    }

    /// Removes and returns the buffer's current contents, leaving it empty.
    pub fn take(&mut self) -> (r: Vec<u8>)
        ensures
            r@ == old(self)@,
            final(self)@ == Seq::<u8>::empty(),
    {
        let mut taken: Vec<u8> = Vec::new();
        core::mem::swap(&mut taken, &mut self.data);
        assert(self.data@ =~= Seq::<u8>::empty());
        taken
    }
}

/// Called on the host's behalf before it writes `space` bytes of response
/// data: clears the buffer and resizes it to exactly `space` zero bytes.
/// The unverified edge hands the host a pointer into the resized buffer.
pub fn kwasm_reserve_space(buffer: &mut ScratchBuffer, space: usize)
    ensures
        final(buffer)@ == Seq::new(space as nat, |i: int| 0u8),
{
    buffer.reserve(space)
}

} // verus!
