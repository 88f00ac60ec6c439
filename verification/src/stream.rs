//! An in-memory byte stream: what one side writes, the other side reads.

use vstd::prelude::*;

verus! {

/// A byte stream held in memory. Its model is the bytes that were written
/// and not yet read, oldest first. The transport fills it with what arrived
/// and drains what is to be sent.
#[derive(Debug)]
pub struct Stream {
    bytes: Vec<u8>,
}

impl View for Stream {
    type V = Seq<u8>;

    closed spec fn view(&self) -> Seq<u8> {
        self.bytes@
    }
}

impl Stream {
    /// A stream with nothing to read.
    pub fn new() -> (r: Stream)
        ensures
            r@ == Seq::<u8>::empty(),
    {
        Stream { bytes: Vec::new() }
    }

    /// Appends `bytes` to the end of the stream.
    pub fn write(&mut self, bytes: &[u8])
        ensures
            final(self)@ == old(self)@ + bytes@,
    {
        let mut i: usize = 0;
        while i < bytes.len()
            invariant
                i <= bytes.len(),
                self@ == old(self)@ + bytes@.take(i as int),
            decreases bytes.len() - i,
        {
            self.bytes.push(bytes[i]);
            assert(bytes@.take(i as int + 1) =~= bytes@.take(i as int).push(bytes@[i as int]));
            i += 1;
        }
        assert(bytes@.take(i as int) =~= bytes@);
    }

    /// Takes every byte that waits in the stream.
    pub fn read_to_end(&mut self) -> (r: Vec<u8>)
        ensures
            r@ == old(self)@,
            final(self)@ == Seq::<u8>::empty(),
    {
        let mut taken: Vec<u8> = Vec::new();
        core::mem::swap(&mut taken, &mut self.bytes);
        taken
    }

    /// The bytes that wait in the stream.
    pub fn bytes(&self) -> (r: &[u8])
        ensures
            r@ == self@,
    {
        self.bytes.as_slice()
    }

    /// Whether nothing waits in the stream.
    pub fn is_empty(&self) -> (r: bool)
        ensures
            r == (self@.len() == 0),
    {
        self.bytes.len() == 0
    }
}

} // verus!
