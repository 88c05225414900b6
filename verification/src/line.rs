//! Line reassembly with bounded memory: bytes accumulate until a line feed,
//! and a line longer than the buffer is truncated rather than ever growing
//! past the configured capacity.

use vstd::prelude::*;

verus! {

/// The byte that terminates a telemetry line.
pub const LINE_TERMINATOR: u8 = 10;

/// Accumulates received bytes into lines.
///
/// The assembler owns one bounded buffer and never stores more than its
/// capacity: a byte arriving on a full buffer is discarded, so an overlong
/// line comes out truncated instead of faulting.  On the line terminator the
/// buffered bytes (terminator excluded) are handed out and the buffer
/// resets to empty.
pub struct LineAssembler {
    buf: Vec<u8>,
    cap: usize,
}

impl LineAssembler {
    /// The bytes accumulated since the last completed line.
    pub closed spec fn buffered(&self) -> Seq<u8> {
        self.buf@
    }

    /// The fixed buffer capacity.
    pub closed spec fn capacity(&self) -> usize {
        self.cap
    }

    /// The buffer never exceeds its capacity.
    pub open spec fn wf(&self) -> bool {
        self.buffered().len() <= self.capacity()
    }

    /// A fresh assembler with an empty buffer.
    pub fn new(capacity: usize) -> (r: Self)
        ensures
            r.wf(),
            r.buffered() == Seq::<u8>::empty(),
            r.capacity() == capacity,
    {
        LineAssembler { buf: Vec::new(), cap: capacity }
    }

    /// How many bytes are currently buffered.
    pub fn buffered_len(&self) -> (r: usize)
        ensures
            r == self.buffered().len(),
    {
        self.buf.len()
    }

    /// Feed one received byte.
    ///
    /// A line terminator completes the line: the bytes buffered so far are
    /// returned (terminator excluded) and the buffer resets to empty.  Any
    /// other byte is appended while there is room and silently discarded
    /// once the buffer is full, so the buffer never grows past its
    /// capacity.
    pub fn push(&mut self, byte: u8) -> (r: Option<Vec<u8>>)
        requires
            old(self).wf(),
        ensures
            final(self).wf(),
            final(self).capacity() == old(self).capacity(),
            byte == LINE_TERMINATOR ==> match r {
                Some(line) => line@ == old(self).buffered() && final(self).buffered()
                    == Seq::<u8>::empty(),
                None => false,
            },
            byte != LINE_TERMINATOR ==> r is None,
            byte != LINE_TERMINATOR && old(self).buffered().len() < old(self).capacity()
                ==> final(self).buffered() == old(self).buffered().push(byte),
            byte != LINE_TERMINATOR && old(self).buffered().len() >= old(self).capacity()
                ==> final(self).buffered() == old(self).buffered(),
    {
        if byte == LINE_TERMINATOR {
            let mut line: Vec<u8> = Vec::new();
            core::mem::swap(&mut self.buf, &mut line);
            Some(line)
        } else {
            if self.buf.len() < self.cap {
                self.buf.push(byte);
            }
            None
        }
    }
}

} // verus!
