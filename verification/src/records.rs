//! Example fixed-layout records.
//!
//! These two structs show how [`FixedLayout`] is implemented for a compound
//! type: the record's representation is the concatenation of its fields'
//! representations, in declaration order and without padding, so each field
//! occupies a fixed byte range of the record's layout. The crate's tests
//! exercise the round trip through them.

use vstd::prelude::*;
use vstd::slice::slice_subrange;

use crate::layout::lemma_repr_len;
use crate::layout::FixedLayout;
use crate::scalars::CharBits;

verus! {

/// A record mixing integer widths with a character: a 32-bit unsigned, a
/// 16-bit signed, and a single character as its raw storage
/// ([`CharBits`]), laid out in that order over 10 bytes.
#[derive(Debug, Clone, Copy, PartialEq, Eq, Structural)]
pub struct Mixed {
    pub a: u32,
    pub b: i16,
    pub c: CharBits,
}

impl FixedLayout for Mixed {
    open spec fn byte_size() -> nat {
        10
    }

    open spec fn repr(&self) -> Seq<u8> {
        self.a.repr() + self.b.repr() + self.c.repr()
    }

    open spec fn valid_repr(b: Seq<u8>) -> bool {
        &&& b.len() == 10
        &&& <u32 as FixedLayout>::valid_repr(b.subrange(0, 4))
        &&& <i16 as FixedLayout>::valid_repr(b.subrange(4, 6))
        &&& <CharBits as FixedLayout>::valid_repr(b.subrange(6, 10))
    }

    proof fn lemma_repr_valid(v: Self) {
        lemma_repr_len(v.a);
        lemma_repr_len(v.b);
        lemma_repr_len(v.c);
        <u32 as FixedLayout>::lemma_repr_valid(v.a);
        <i16 as FixedLayout>::lemma_repr_valid(v.b);
        <CharBits as FixedLayout>::lemma_repr_valid(v.c);
        assert(v.repr().subrange(0, 4) =~= v.a.repr());
        assert(v.repr().subrange(4, 6) =~= v.b.repr());
        assert(v.repr().subrange(6, 10) =~= v.c.repr());
    }

    proof fn lemma_valid_repr_len(b: Seq<u8>) {
    }

    proof fn lemma_repr_injective(v: Self, w: Self) {
        lemma_repr_len(v.a);
        lemma_repr_len(v.b);
        lemma_repr_len(v.c);
        lemma_repr_len(w.a);
        lemma_repr_len(w.b);
        lemma_repr_len(w.c);
        assert(v.a.repr() =~= v.repr().subrange(0, 4));
        assert(v.b.repr() =~= v.repr().subrange(4, 6));
        assert(v.c.repr() =~= v.repr().subrange(6, 10));
        assert(w.a.repr() =~= w.repr().subrange(0, 4));
        assert(w.b.repr() =~= w.repr().subrange(4, 6));
        assert(w.c.repr() =~= w.repr().subrange(6, 10));
        <u32 as FixedLayout>::lemma_repr_injective(v.a, w.a);
        <i16 as FixedLayout>::lemma_repr_injective(v.b, w.b);
        <CharBits as FixedLayout>::lemma_repr_injective(v.c, w.c);
    }

    fn size_in_bytes() -> usize {
        10
    }

    fn to_bytes(&self) -> (b: Vec<u8>) {
        let mut out = self.a.to_bytes();
        let mut tail = self.b.to_bytes();
        out.append(&mut tail);
        let mut tail = self.c.to_bytes();
        out.append(&mut tail);
        out
    }

    fn bytes_valid(b: &[u8]) -> (ok: bool) {
        b.len() == 10 && <u32 as FixedLayout>::bytes_valid(slice_subrange(b, 0, 4))
            && <i16 as FixedLayout>::bytes_valid(slice_subrange(b, 4, 6))
            && <CharBits as FixedLayout>::bytes_valid(slice_subrange(b, 6, 10))
    }

    fn from_bytes(b: &[u8]) -> (v: Self) {
        let a = <u32 as FixedLayout>::from_bytes(slice_subrange(b, 0, 4));
        let bb = <i16 as FixedLayout>::from_bytes(slice_subrange(b, 4, 6));
        let c = <CharBits as FixedLayout>::from_bytes(slice_subrange(b, 6, 10));
        let v = Mixed { a, b: bb, c };
        proof {
            assert(v.repr() =~= b@);
        }
        v
    }
}

/// A record of a 32-bit unsigned, a pointer-width unsigned, and a byte,
/// laid out in that order over 13 bytes.
#[derive(Debug, Clone, Copy, PartialEq, Eq, Structural)]
pub struct Sample {
    pub f: u32,
    pub d: usize,
    pub g: u8,
}

impl FixedLayout for Sample {
    open spec fn byte_size() -> nat {
        13
    }

    open spec fn repr(&self) -> Seq<u8> {
        self.f.repr() + self.d.repr() + self.g.repr()
    }

    open spec fn valid_repr(b: Seq<u8>) -> bool {
        &&& b.len() == 13
        &&& <u32 as FixedLayout>::valid_repr(b.subrange(0, 4))
        &&& <usize as FixedLayout>::valid_repr(b.subrange(4, 12))
        &&& <u8 as FixedLayout>::valid_repr(b.subrange(12, 13))
    }

    proof fn lemma_repr_valid(v: Self) {
        lemma_repr_len(v.f);
        lemma_repr_len(v.d);
        lemma_repr_len(v.g);
        <u32 as FixedLayout>::lemma_repr_valid(v.f);
        <usize as FixedLayout>::lemma_repr_valid(v.d);
        <u8 as FixedLayout>::lemma_repr_valid(v.g);
        assert(v.repr().subrange(0, 4) =~= v.f.repr());
        assert(v.repr().subrange(4, 12) =~= v.d.repr());
        assert(v.repr().subrange(12, 13) =~= v.g.repr());
    }

    proof fn lemma_valid_repr_len(b: Seq<u8>) {
    }

    proof fn lemma_repr_injective(v: Self, w: Self) {
        lemma_repr_len(v.f);
        lemma_repr_len(v.d);
        lemma_repr_len(v.g);
        lemma_repr_len(w.f);
        lemma_repr_len(w.d);
        lemma_repr_len(w.g);
        assert(v.f.repr() =~= v.repr().subrange(0, 4));
        assert(v.d.repr() =~= v.repr().subrange(4, 12));
        assert(v.g.repr() =~= v.repr().subrange(12, 13));
        assert(w.f.repr() =~= w.repr().subrange(0, 4));
        assert(w.d.repr() =~= w.repr().subrange(4, 12));
        assert(w.g.repr() =~= w.repr().subrange(12, 13));
        <u32 as FixedLayout>::lemma_repr_injective(v.f, w.f);
        <usize as FixedLayout>::lemma_repr_injective(v.d, w.d);
        <u8 as FixedLayout>::lemma_repr_injective(v.g, w.g);
    }

    fn size_in_bytes() -> usize {
        13
    }

    fn to_bytes(&self) -> (b: Vec<u8>) {
        let mut out = self.f.to_bytes();
        let mut tail = self.d.to_bytes();
        out.append(&mut tail);
        let mut tail = self.g.to_bytes();
        out.append(&mut tail);
        out
    }

    fn bytes_valid(b: &[u8]) -> (ok: bool) {
        b.len() == 13 && <u32 as FixedLayout>::bytes_valid(slice_subrange(b, 0, 4))
            && <usize as FixedLayout>::bytes_valid(slice_subrange(b, 4, 12))
            && <u8 as FixedLayout>::bytes_valid(slice_subrange(b, 12, 13))
    }

    fn from_bytes(b: &[u8]) -> (v: Self) {
        let f = <u32 as FixedLayout>::from_bytes(slice_subrange(b, 0, 4));
        let d = <usize as FixedLayout>::from_bytes(slice_subrange(b, 4, 12));
        let g = <u8 as FixedLayout>::from_bytes(slice_subrange(b, 12, 13));
        let v = Sample { f, d, g };
        proof {
            assert(v.repr() =~= b@);
        }
        v
    }
}

/// Byte-for-byte field correspondence for [`Mixed`]: each field occupies its
/// own byte range of the record's representation, and two records' bytes
/// agree on a field's range exactly when that field is equal — so two
/// written records differ exactly where their fields differ.
pub proof fn lemma_mixed_field_correspondence(v: Mixed, w: Mixed)
    ensures
        (v.repr().subrange(0, 4) == w.repr().subrange(0, 4)) <==> v.a == w.a,
        (v.repr().subrange(4, 6) == w.repr().subrange(4, 6)) <==> v.b == w.b,
        (v.repr().subrange(6, 10) == w.repr().subrange(6, 10)) <==> v.c == w.c,
{
    lemma_repr_len(v.a);
    lemma_repr_len(v.b);
    lemma_repr_len(v.c);
    lemma_repr_len(w.a);
    lemma_repr_len(w.b);
    lemma_repr_len(w.c);
    assert(v.a.repr() =~= v.repr().subrange(0, 4));
    assert(v.b.repr() =~= v.repr().subrange(4, 6));
    assert(v.c.repr() =~= v.repr().subrange(6, 10));
    assert(w.a.repr() =~= w.repr().subrange(0, 4));
    assert(w.b.repr() =~= w.repr().subrange(4, 6));
    assert(w.c.repr() =~= w.repr().subrange(6, 10));
    if v.repr().subrange(0, 4) == w.repr().subrange(0, 4) {
        <u32 as FixedLayout>::lemma_repr_injective(v.a, w.a);
    }
    if v.repr().subrange(4, 6) == w.repr().subrange(4, 6) {
        <i16 as FixedLayout>::lemma_repr_injective(v.b, w.b);
    }
    if v.repr().subrange(6, 10) == w.repr().subrange(6, 10) {
        <CharBits as FixedLayout>::lemma_repr_injective(v.c, w.c);
    }
}

} // verus!
