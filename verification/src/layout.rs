//! The fixed-layout capability: types whose byte representation has a fixed,
//! compile-time-known width and is determined by the value alone.

use vstd::prelude::*;

verus! {

/// Capability marker for plain, fixed-layout data.
///
/// An implementation fixes the wire layout of the type: `repr` gives the byte
/// representation of each value, `byte_size` its fixed width, and `valid_repr`
/// the byte sequences that are the representation of some value. The three
/// lemmas oblige every implementation to keep those definitions coherent:
/// every representation is valid, every valid sequence has the fixed width,
/// and no two distinct values share a representation — which is what makes
/// the read-back of written bytes recover the original value.
pub trait FixedLayout: Sized {
    /// The fixed width, in bytes, of the representation of every value.
    spec fn byte_size() -> nat;

    /// The byte representation of this value.
    spec fn repr(&self) -> Seq<u8>;

    /// Whether `b` is the representation of some value of this type.
    spec fn valid_repr(b: Seq<u8>) -> bool;

    /// Every value's representation is a valid representation.
    proof fn lemma_repr_valid(v: Self)
        ensures
            Self::valid_repr(v.repr()),
    ;

    /// Every valid representation has exactly the fixed width.
    proof fn lemma_valid_repr_len(b: Seq<u8>)
        requires
            Self::valid_repr(b),
        ensures
            b.len() == Self::byte_size(),
    ;

    /// Distinct values have distinct representations.
    proof fn lemma_repr_injective(v: Self, w: Self)
        requires
            v.repr() == w.repr(),
        ensures
            v == w,
    ;

    /// The fixed byte footprint of the type, equal on every call.
    fn size_in_bytes() -> (n: usize)
        ensures
            n as nat == Self::byte_size(),
    ;

    /// The byte representation of `self`, as an owned buffer.
    fn to_bytes(&self) -> (b: Vec<u8>)
        ensures
            b@ == self.repr(),
    ;

    /// Whether `b` holds the representation of some value of this type.
    fn bytes_valid(b: &[u8]) -> (ok: bool)
        ensures
            ok == Self::valid_repr(b@),
    ;

    /// The value whose representation is `b`.
    fn from_bytes(b: &[u8]) -> (v: Self)
        requires
            Self::valid_repr(b@),
        ensures
            v.repr() == b@,
    ;
}

/// Round-trip identity: a value recovered from the leading `byte_size` bytes
/// of a source that holds exactly the bytes written for `v` is `v` itself.
pub proof fn lemma_round_trip<T: FixedLayout>(v: T, w: T)
    requires
        w.repr() == v.repr().take(T::byte_size() as int),
    ensures
        w == v,
{
    T::lemma_repr_valid(v);
    T::lemma_valid_repr_len(v.repr());
    assert(v.repr().take(T::byte_size() as int) =~= v.repr());
    T::lemma_repr_injective(v, w);
}

/// The representation of every value has exactly the fixed width that
/// `size_in_bytes` reports.
pub proof fn lemma_repr_len<T: FixedLayout>(v: T)
    ensures
        v.repr().len() == T::byte_size(),
{
    T::lemma_repr_valid(v);
    T::lemma_valid_repr_len(v.repr());
}

/// Distinct values are written as distinct byte sequences.
pub proof fn lemma_repr_distinct<T: FixedLayout>(v: T, w: T)
    requires
        v != w,
    ensures
        v.repr() != w.repr(),
{
    if v.repr() == w.repr() {
        T::lemma_repr_injective(v, w);
    }
}

} // verus!
