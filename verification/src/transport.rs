//! Byte-oriented sinks and sources.
//!
//! A sink accepts whole byte sequences with all-or-nothing semantics; a
//! source hands out an exact number of bytes or fails. Any type can take
//! part by implementing [`ByteSink`] or [`ByteSource`]; this module supplies
//! the two in-memory transports: `Vec<u8>` as a sink and [`ByteCursor`] as a
//! source over an owned buffer.

use vstd::prelude::*;

verus! {

/// The one kind of failure this layer surfaces: an I/O error, either
/// propagated from the underlying transport or raised when a read cannot be
/// completed as requested.
#[derive(Debug, Clone, Copy, PartialEq, Eq, Structural)]
pub enum IoError {
    /// The source ended before the requested number of bytes was available.
    UnexpectedEof,
    /// The bytes read are not the representation of any value of the
    /// requested type.
    InvalidData,
    /// Any other failure of the underlying transport.
    Other,
}

/// A destination that accepts byte sequences as a whole.
///
/// `sink_bytes` is the sequence of all bytes the sink has accepted so far;
/// an implementation defines what that means for its own state. A write
/// either appends the whole buffer to that sequence or fails.
pub trait ByteSink {
    /// All bytes accepted so far.
    spec fn sink_bytes(&self) -> Seq<u8>;

    /// Accept every byte of `buf`, or fail as a whole.
    fn write_all(&mut self, buf: &Vec<u8>) -> (r: Result<(), IoError>)
        ensures
            r is Ok ==> final(self).sink_bytes() == old(self).sink_bytes() + buf@,
    ;
}

/// An origin that can be asked for an exact number of bytes.
///
/// `remaining` is the sequence of bytes the source still holds; an
/// implementation defines what that means for its own state. A read of `n`
/// bytes either consumes and returns exactly the first `n` of them, or
/// fails; it must fail with the end-of-input error when fewer than `n`
/// remain.
pub trait ByteSource {
    /// All bytes still available, in the order they would be read.
    spec fn remaining(&self) -> Seq<u8>;

    /// Consume and return exactly the next `n` bytes, failing with
    /// [`IoError::UnexpectedEof`] if fewer than `n` are available.
    fn read_exact(&mut self, n: usize) -> (r: Result<Vec<u8>, IoError>)
        ensures
            r matches Ok(buf) ==> {
                &&& old(self).remaining().len() >= n
                &&& buf@ == old(self).remaining().take(n as int)
                &&& final(self).remaining() == old(self).remaining().skip(n as int)
            },
            old(self).remaining().len() < n ==> r == Err::<Vec<u8>, IoError>(
                IoError::UnexpectedEof,
            ),
    ;
}

impl ByteSink for Vec<u8> {
    open spec fn sink_bytes(&self) -> Seq<u8> {
        self@
    }

    /// Appending to an in-memory buffer cannot fail.
    fn write_all(&mut self, buf: &Vec<u8>) -> (r: Result<(), IoError>)
        ensures
            r is Ok,
    {
        let mut i: usize = 0;
        while i < buf.len()
            invariant
                i <= buf.len(),
                self@ == old(self)@ + buf@.take(i as int),
            decreases buf.len() - i,
        {
            self.push(buf[i]);
            i = i + 1;
            proof {
                assert(buf@.take(i as int) =~= buf@.take(i as int - 1).push(buf@[i as int - 1]));
            }
        }
        proof {
            assert(buf@.take(buf@.len() as int) =~= buf@);
        }
        Ok(())
    }
}

/// An in-memory byte source: a buffer read front to back.
pub struct ByteCursor {
    data: Vec<u8>,
    pos: usize,
}

impl ByteCursor {
    #[verifier::type_invariant]
    spec fn wf(&self) -> bool {
        self.pos <= self.data.len()
    }

    /// A cursor positioned at the start of `data`.
    pub fn new(data: Vec<u8>) -> (c: ByteCursor)
        ensures
            c.remaining() == data@,
    {
        let c = ByteCursor { data, pos: 0 };
        proof {
            assert(c.remaining() =~= c.data@);
        }
        c
    }
}

impl ByteSource for ByteCursor {
    closed spec fn remaining(&self) -> Seq<u8> {
        self.data@.skip(self.pos as int)
    }

    /// Succeeds exactly when `n` bytes remain; a failed read consumes
    /// nothing.
    fn read_exact(&mut self, n: usize) -> (r: Result<Vec<u8>, IoError>)
        ensures
            r is Ok <==> n <= old(self).remaining().len(),
            r is Err ==> *final(self) == *old(self) && r == Err::<Vec<u8>, IoError>(
                IoError::UnexpectedEof,
            ),
    {
        proof {
            use_type_invariant(&*self);
        }
        if n > self.data.len() - self.pos {
            return Err(IoError::UnexpectedEof);
        }
        let mut buf: Vec<u8> = Vec::new();
        let start = self.pos;
        let mut i: usize = 0;
        while i < n
            invariant
                *self == *old(self),
                self.wf(),
                start == self.pos,
                i <= n,
                n <= self.data.len() - self.pos,
                buf@ == self.data@.subrange(start as int, start as int + i as int),
            decreases n - i,
        {
            buf.push(self.data[start + i]);
            i = i + 1;
            proof {
                assert(self.data@.subrange(start as int, start as int + i as int)
                    =~= self.data@.subrange(start as int, start as int + i as int - 1).push(
                    self.data@[start as int + i as int - 1],
                ));
            }
        }
        self.pos = start + n;
        proof {
            assert(buf@ =~= old(self).remaining().take(n as int));
            assert(self.remaining() =~= old(self).remaining().skip(n as int));
        }
        Ok(buf)
    }
}

} // verus!
