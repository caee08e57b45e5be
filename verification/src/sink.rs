//! The output sink: an abstract destination accepting raw bytes and
//! reporting write failure, and an in-memory sink that collects the bytes.

use vstd::prelude::*;

verus! {

/// A destination for the machine's textual output.  A sink either accepts a
/// write whole or reports failure; after a failure nothing is promised of
/// its contents.
pub trait Sink {
    /// The bytes the sink has accepted so far.
    spec fn written(&self) -> Seq<u8>;

    /// Whether this sink is known never to reject a write.  A sink for
    /// which this does not hold may still accept every write; writing never
    /// changes which of the two a sink is.
    spec fn reliable(&self) -> bool;

    /// Accepts `data`, or reports failure; a reliable sink never fails.
    fn write_bytes(&mut self, data: &[u8]) -> (r: Result<(), ()>)
        ensures
            r is Ok ==> final(self).written() == old(self).written() + data@,
            r is Err ==> !old(self).reliable(),
            final(self).reliable() == old(self).reliable(),
    ;
}

/// A sink that collects every byte in memory and never fails; the machine's
/// output can then be inspected.
pub struct VecSink {
    buf: Vec<u8>,
}

impl VecSink {
    /// An empty sink.
    pub fn new() -> (s: VecSink)
        ensures
            s.written() == Seq::<u8>::empty(),
    {
        VecSink { buf: Vec::new() }
    }

    /// The bytes written so far.
    pub fn bytes(&self) -> (r: &Vec<u8>)
        ensures
            r@ == self.written(),
    {
        &self.buf
    }
}

impl Sink for VecSink {
    closed spec fn written(&self) -> Seq<u8> {
        self.buf@
    }

    open spec fn reliable(&self) -> bool {
        true
    }

    fn write_bytes(&mut self, data: &[u8]) -> (r: Result<(), ()>)
        ensures
            r is Ok,
            final(self).written() == old(self).written() + data@,
    {
        let mut i: usize = 0;
        while i < data.len()
            invariant
                i <= data@.len(),
                self.buf@ == old(self).buf@ + data@.subrange(0, i as int),
            decreases data@.len() - i,
        {
            self.buf.push(data[i]);
            i += 1;
            proof {
                assert(self.buf@ =~= old(self).buf@ + data@.subrange(0, i as int));
            }
        }
        proof {
            assert(self.buf@ =~= old(self).buf@ + data@);
        }
        Ok(())
    }
}

} // verus!
