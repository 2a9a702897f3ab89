//! Binary serialization of fixed-layout values.
//!
//! A value of a [`FixedLayout`] type has a byte representation of a fixed,
//! compile-time-known width. The [`BinaryWrite`] extension writes that
//! representation, verbatim, to any byte-oriented sink; the [`BinaryRead`]
//! extension reads exactly that many bytes back from any byte-oriented
//! source and reconstructs the value. There is no framing, no length prefix
//! and no tagging: the representation itself is the wire format, so reader
//! and writer must agree on the type out of band.
//!
//! The layout of each type is the one its `FixedLayout` implementation
//! declares — for the implementations in this crate, little-endian fields in
//! declaration order. Producers and consumers on different machines must
//! agree on that layout out of band; this crate performs no byte-order
//! normalization beyond what the implementations themselves fix.

pub mod binary;
pub mod layout;
pub mod records;
pub mod scalars;
pub mod transport;

pub use binary::write_binary_into_buffer;
pub use binary::BinaryRead;
pub use binary::BinaryWrite;
pub use layout::FixedLayout;
pub use scalars::CharBits;
pub use transport::ByteCursor;
pub use transport::ByteSink;
pub use transport::ByteSource;
pub use transport::IoError;
