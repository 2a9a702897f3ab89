//! Writing and reading fixed-layout values over byte transports.
//!
//! [`BinaryWrite`] lets any [`ByteSink`] emit the byte representation of a
//! [`FixedLayout`] value, verbatim and without framing; [`BinaryRead`] lets
//! any [`ByteSource`] consume exactly the representation's width in bytes
//! and reconstruct the value. The two are symmetric: reading back what was
//! written recovers the original value (see
//! [`lemma_round_trip`](crate::layout::lemma_round_trip)).

use vstd::prelude::*;

use crate::layout::FixedLayout;
use crate::transport::ByteCursor;
use crate::transport::ByteSink;
use crate::transport::ByteSource;
use crate::transport::IoError;

verus! {

/// Writing fixed-layout values into binary sinks.
pub trait BinaryWrite: ByteSink {
    /// Write the byte representation of `item` to this sink, as a whole.
    ///
    /// On success the sink has accepted exactly
    /// `T::byte_size()` new bytes — the representation of `item`, in layout
    /// order, verbatim — and `item` itself is untouched. A failure of the
    /// underlying sink propagates unchanged, and this layer attempts no
    /// recovery.
    fn write_binary<T: FixedLayout>(&mut self, item: &T) -> (r: Result<(), IoError>)
        ensures
            r is Ok ==> {
                &&& final(self).sink_bytes() == old(self).sink_bytes() + item.repr()
                &&& final(self).sink_bytes().len() == old(self).sink_bytes().len()
                    + T::byte_size()
            },
    ;
}

/// Reading fixed-layout values out of binary sources.
pub trait BinaryRead: ByteSource {
    /// Read the next `T::byte_size()` bytes and reconstruct the value they
    /// represent, boxed.
    ///
    /// On success, exactly `T::byte_size()` bytes were consumed and the
    /// returned value's representation is bit-identical to them. The read
    /// fails — producing no value — with `UnexpectedEof` when fewer than
    /// `T::byte_size()` bytes remain, when the underlying source fails, or
    /// when the bytes read are not the representation of any value of `T`.
    fn read_binary_boxed<T: FixedLayout>(&mut self) -> (r: Result<Box<T>, IoError>)
        ensures
            r matches Ok(v) ==> {
                &&& old(self).remaining().len() >= T::byte_size()
                &&& T::valid_repr(old(self).remaining().take(T::byte_size() as int))
                &&& v.repr() == old(self).remaining().take(T::byte_size() as int)
                &&& final(self).remaining() == old(self).remaining().skip(
                    T::byte_size() as int,
                )
            },
            old(self).remaining().len() < T::byte_size() ==> r == Err::<Box<T>, IoError>(
                IoError::UnexpectedEof,
            ),
            !T::valid_repr(old(self).remaining().take(T::byte_size() as int)) ==> r is Err,
    ;

    /// Read the next `T::byte_size()` bytes and reconstruct the value they
    /// represent.
    ///
    /// Same contract as [`read_binary_boxed`](Self::read_binary_boxed), with
    /// the value returned directly.
    fn read_binary<T: FixedLayout>(&mut self) -> (r: Result<T, IoError>)
        ensures
            r matches Ok(v) ==> {
                &&& old(self).remaining().len() >= T::byte_size()
                &&& T::valid_repr(old(self).remaining().take(T::byte_size() as int))
                &&& v.repr() == old(self).remaining().take(T::byte_size() as int)
                &&& final(self).remaining() == old(self).remaining().skip(
                    T::byte_size() as int,
                )
            },
            old(self).remaining().len() < T::byte_size() ==> r == Err::<T, IoError>(
                IoError::UnexpectedEof,
            ),
            !T::valid_repr(old(self).remaining().take(T::byte_size() as int)) ==> r is Err,
    ;
}

impl<S: ByteSink> BinaryWrite for S {
    fn write_binary<T: FixedLayout>(&mut self, item: &T) -> (r: Result<(), IoError>) {
        let buf = item.to_bytes();
        proof {
            T::lemma_repr_valid(*item);
            T::lemma_valid_repr_len(item.repr());
        }
        self.write_all(&buf)
    }
}

impl<S: ByteSource> BinaryRead for S {
    fn read_binary_boxed<T: FixedLayout>(&mut self) -> (r: Result<Box<T>, IoError>) {
        let n = T::size_in_bytes();
        let buf = match self.read_exact(n) {
            Ok(buf) => buf,
            Err(e) => {
                return Err(e);
            },
        };
        if T::bytes_valid(buf.as_slice()) {
            let v = T::from_bytes(buf.as_slice());
            Ok(Box::new(v))
        } else {
            Err(IoError::InvalidData)
        }
    }

    fn read_binary<T: FixedLayout>(&mut self) -> (r: Result<T, IoError>) {
        match self.read_binary_boxed::<T>() {
            Ok(v) => Ok(*v),
            Err(e) => Err(e),
        }
    }
}

/// Write the byte representation of `item` into an in-memory buffer.
///
/// The sink here is a `Vec<u8>`, which accepts every write, so — unlike the
/// generic [`BinaryWrite::write_binary`], whose sink may fail on its own —
/// success is owed: the call always returns `Ok` and appends exactly the
/// `T::byte_size()` bytes of `item`'s representation.
pub fn write_binary_into_buffer<T: FixedLayout>(buf: &mut Vec<u8>, item: &T) -> (r: Result<
    (),
    IoError,
>)
    ensures
        r is Ok,
        final(buf)@ == old(buf)@ + item.repr(),
        final(buf)@.len() == old(buf)@.len() + T::byte_size(),
{
    let bytes = item.to_bytes();
    proof {
        T::lemma_repr_valid(*item);
        T::lemma_valid_repr_len(item.repr());
    }
    buf.write_all(&bytes)
}

impl ByteCursor {
    /// Read the next `T::byte_size()` bytes of this in-memory buffer and
    /// reconstruct the value they represent, with every outcome pinned.
    ///
    /// The source here is the cursor itself, which fails only for want of
    /// bytes, so — unlike the generic [`BinaryRead::read_binary`], whose
    /// source may fail on its own — success is owed whenever enough bytes
    /// remain and they are a valid representation. A short read returns
    /// `UnexpectedEof` and consumes nothing; a read of bytes that represent
    /// no value of `T` consumes them and returns `InvalidData`.
    pub fn read_binary_exact<T: FixedLayout>(&mut self) -> (r: Result<T, IoError>)
        ensures
            old(self).remaining().len() < T::byte_size() ==> r == Err::<T, IoError>(
                IoError::UnexpectedEof,
            ) && *final(self) == *old(self),
            old(self).remaining().len() >= T::byte_size() && !T::valid_repr(
                old(self).remaining().take(T::byte_size() as int),
            ) ==> r == Err::<T, IoError>(IoError::InvalidData) && final(self).remaining() == old(
                self,
            ).remaining().skip(T::byte_size() as int),
            old(self).remaining().len() >= T::byte_size() && T::valid_repr(
                old(self).remaining().take(T::byte_size() as int),
            ) ==> (r matches Ok(v) && v.repr() == old(self).remaining().take(T::byte_size() as int)
                && final(self).remaining() == old(self).remaining().skip(T::byte_size() as int)),
    {
        let n = T::size_in_bytes();
        let buf = match self.read_exact(n) {
            Ok(buf) => buf,
            Err(e) => {
                return Err(e);
            },
        };
        if T::bytes_valid(buf.as_slice()) {
            Ok(T::from_bytes(buf.as_slice()))
        } else {
            Err(IoError::InvalidData)
        }
    }
}

} // verus!
