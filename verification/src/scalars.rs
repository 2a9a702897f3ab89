//! `FixedLayout` for the primitive scalar types.
//!
//! Integers are laid out little-endian at their natural width; signed
//! integers use their two's-complement bit pattern. `usize` is laid out at
//! a fixed 8 bytes, so a sequence is valid for it exactly when the value
//! fits the platform word — every sequence, on the 64-bit hosts this format
//! targets. A character travels as [`CharBits`], its raw 32-bit storage,
//! which accepts every bit pattern; turning the storage back into a `char`
//! is a separate, fallible step.

use vstd::bytes::lemma_auto_spec_u16_to_from_le_bytes;
use vstd::bytes::lemma_auto_spec_u32_to_from_le_bytes;
use vstd::bytes::lemma_auto_spec_u64_to_from_le_bytes;
use vstd::bytes::spec_u16_from_le_bytes;
use vstd::bytes::spec_u16_to_le_bytes;
use vstd::bytes::spec_u32_from_le_bytes;
use vstd::bytes::spec_u32_to_le_bytes;
use vstd::bytes::spec_u64_from_le_bytes;
use vstd::bytes::spec_u64_to_le_bytes;
use vstd::bytes::u16_from_le_bytes;
use vstd::bytes::u16_to_le_bytes;
use vstd::bytes::u32_from_le_bytes;
use vstd::bytes::u32_to_le_bytes;
use vstd::bytes::u64_from_le_bytes;
use vstd::bytes::u64_to_le_bytes;
use vstd::prelude::*;
use vstd::utf8::char_is_scalar;
use vstd::utf8::char_u32_cast;
use vstd::utf8::is_scalar;

use crate::layout::FixedLayout;

verus! {

impl FixedLayout for u8 {
    open spec fn byte_size() -> nat {
        1
    }

    open spec fn repr(&self) -> Seq<u8> {
        seq![*self]
    }

    open spec fn valid_repr(b: Seq<u8>) -> bool {
        b.len() == 1
    }

    proof fn lemma_repr_valid(v: Self) {
    }

    proof fn lemma_valid_repr_len(b: Seq<u8>) {
    }

    proof fn lemma_repr_injective(v: Self, w: Self) {
        assert(v == seq![v][0] && w == seq![w][0]);
    }

    fn size_in_bytes() -> usize {
        1
    }

    fn to_bytes(&self) -> (b: Vec<u8>) {
        let mut b: Vec<u8> = Vec::new();
        b.push(*self);
        proof {
            assert(b@ =~= self.repr());
        }
        b
    }

    fn bytes_valid(b: &[u8]) -> bool {
        b.len() == 1
    }

    fn from_bytes(b: &[u8]) -> (v: Self) {
        let v = b[0];
        proof {
            assert(v.repr() =~= b@);
        }
        v
    }
}

impl FixedLayout for u16 {
    open spec fn byte_size() -> nat {
        2
    }

    open spec fn repr(&self) -> Seq<u8> {
        spec_u16_to_le_bytes(*self)
    }

    open spec fn valid_repr(b: Seq<u8>) -> bool {
        b.len() == 2
    }

    proof fn lemma_repr_valid(v: Self) {
        lemma_auto_spec_u16_to_from_le_bytes();
    }

    proof fn lemma_valid_repr_len(b: Seq<u8>) {
    }

    proof fn lemma_repr_injective(v: Self, w: Self) {
        lemma_auto_spec_u16_to_from_le_bytes();
        assert(spec_u16_to_le_bytes(v).len() == 2);
        assert(spec_u16_to_le_bytes(w).len() == 2);
        assert(spec_u16_from_le_bytes(spec_u16_to_le_bytes(v)) == v);
        assert(spec_u16_from_le_bytes(spec_u16_to_le_bytes(w)) == w);
    }

    fn size_in_bytes() -> usize {
        2
    }

    fn to_bytes(&self) -> (b: Vec<u8>) {
        u16_to_le_bytes(*self)
    }

    fn bytes_valid(b: &[u8]) -> bool {
        b.len() == 2
    }

    fn from_bytes(b: &[u8]) -> (v: Self) {
        let v = u16_from_le_bytes(b);
        proof {
            lemma_auto_spec_u16_to_from_le_bytes();
        }
        v
    }
}

impl FixedLayout for u32 {
    open spec fn byte_size() -> nat {
        4
    }

    open spec fn repr(&self) -> Seq<u8> {
        spec_u32_to_le_bytes(*self)
    }

    open spec fn valid_repr(b: Seq<u8>) -> bool {
        b.len() == 4
    }

    proof fn lemma_repr_valid(v: Self) {
        lemma_auto_spec_u32_to_from_le_bytes();
    }

    proof fn lemma_valid_repr_len(b: Seq<u8>) {
    }

    proof fn lemma_repr_injective(v: Self, w: Self) {
        lemma_auto_spec_u32_to_from_le_bytes();
        assert(spec_u32_to_le_bytes(v).len() == 4);
        assert(spec_u32_to_le_bytes(w).len() == 4);
        assert(spec_u32_from_le_bytes(spec_u32_to_le_bytes(v)) == v);
        assert(spec_u32_from_le_bytes(spec_u32_to_le_bytes(w)) == w);
    }

    fn size_in_bytes() -> usize {
        4
    }

    fn to_bytes(&self) -> (b: Vec<u8>) {
        u32_to_le_bytes(*self)
    }

    fn bytes_valid(b: &[u8]) -> bool {
        b.len() == 4
    }

    fn from_bytes(b: &[u8]) -> (v: Self) {
        let v = u32_from_le_bytes(b);
        proof {
            lemma_auto_spec_u32_to_from_le_bytes();
        }
        v
    }
}

impl FixedLayout for u64 {
    open spec fn byte_size() -> nat {
        8
    }

    open spec fn repr(&self) -> Seq<u8> {
        spec_u64_to_le_bytes(*self)
    }

    open spec fn valid_repr(b: Seq<u8>) -> bool {
        b.len() == 8
    }

    proof fn lemma_repr_valid(v: Self) {
        lemma_auto_spec_u64_to_from_le_bytes();
    }

    proof fn lemma_valid_repr_len(b: Seq<u8>) {
    }

    proof fn lemma_repr_injective(v: Self, w: Self) {
        lemma_auto_spec_u64_to_from_le_bytes();
        assert(spec_u64_from_le_bytes(spec_u64_to_le_bytes(v)) == v);
        assert(spec_u64_from_le_bytes(spec_u64_to_le_bytes(w)) == w);
    }

    fn size_in_bytes() -> usize {
        8
    }

    fn to_bytes(&self) -> (b: Vec<u8>) {
        u64_to_le_bytes(*self)
    }

    fn bytes_valid(b: &[u8]) -> bool {
        b.len() == 8
    }

    fn from_bytes(b: &[u8]) -> (v: Self) {
        let v = u64_from_le_bytes(b);
        proof {
            lemma_auto_spec_u64_to_from_le_bytes();
        }
        v
    }
}

/// `usize` travels at a fixed 8 bytes whatever the platform word is, so a
/// sequence is a valid representation exactly when its value fits the word.
/// On a 64-bit platform that is every 8-byte sequence; a narrower reader
/// refusing a wide value is a cross-platform layout disagreement, which this
/// format leaves to the out-of-band agreement between producer and consumer.
impl FixedLayout for usize {
    open spec fn byte_size() -> nat {
        8
    }

    open spec fn repr(&self) -> Seq<u8> {
        spec_u64_to_le_bytes(*self as u64)
    }

    open spec fn valid_repr(b: Seq<u8>) -> bool {
        b.len() == 8 && vstd::bytes::spec_u64_from_le_bytes(b) <= usize::MAX as u64
    }

    proof fn lemma_repr_valid(v: Self) {
        lemma_auto_spec_u64_to_from_le_bytes();
    }

    proof fn lemma_valid_repr_len(b: Seq<u8>) {
    }

    proof fn lemma_repr_injective(v: Self, w: Self) {
        lemma_auto_spec_u64_to_from_le_bytes();
        assert(spec_u64_from_le_bytes(spec_u64_to_le_bytes(v as u64)) == v as u64);
        assert(spec_u64_from_le_bytes(spec_u64_to_le_bytes(w as u64)) == w as u64);
        assert(v as u64 == w as u64 ==> v == w) by (bit_vector);
    }

    fn size_in_bytes() -> usize {
        8
    }

    fn to_bytes(&self) -> (b: Vec<u8>) {
        u64_to_le_bytes(*self as u64)
    }

    fn bytes_valid(b: &[u8]) -> (ok: bool) {
        b.len() == 8 && {
            let x = u64_from_le_bytes(b);
            x <= usize::MAX as u64
        }
    }

    fn from_bytes(b: &[u8]) -> (v: Self) {
        let x = u64_from_le_bytes(b);
        proof {
            lemma_auto_spec_u64_to_from_le_bytes();
        }
        #[verifier::truncate] (x as usize)
    }
}

impl FixedLayout for i8 {
    open spec fn byte_size() -> nat {
        1
    }

    open spec fn repr(&self) -> Seq<u8> {
        seq![*self as u8]
    }

    open spec fn valid_repr(b: Seq<u8>) -> bool {
        b.len() == 1
    }

    proof fn lemma_repr_valid(v: Self) {
    }

    proof fn lemma_valid_repr_len(b: Seq<u8>) {
    }

    proof fn lemma_repr_injective(v: Self, w: Self) {
        assert(v as u8 == seq![v as u8][0] && w as u8 == seq![w as u8][0]);
        assert(v as u8 == w as u8 ==> v == w) by (bit_vector);
    }

    fn size_in_bytes() -> usize {
        1
    }

    fn to_bytes(&self) -> (b: Vec<u8>) {
        let mut b: Vec<u8> = Vec::new();
        b.push(#[verifier::truncate] (*self as u8));
        proof {
            assert(b@ =~= self.repr());
        }
        b
    }

    fn bytes_valid(b: &[u8]) -> bool {
        b.len() == 1
    }

    fn from_bytes(b: &[u8]) -> (v: Self) {
        let x = b[0];
        let v = #[verifier::truncate] (x as i8);
        proof {
            assert((x as i8) as u8 == x) by (bit_vector);
            assert(v.repr() =~= b@);
        }
        v
    }
}

impl FixedLayout for i16 {
    open spec fn byte_size() -> nat {
        2
    }

    open spec fn repr(&self) -> Seq<u8> {
        spec_u16_to_le_bytes(*self as u16)
    }

    open spec fn valid_repr(b: Seq<u8>) -> bool {
        b.len() == 2
    }

    proof fn lemma_repr_valid(v: Self) {
        lemma_auto_spec_u16_to_from_le_bytes();
    }

    proof fn lemma_valid_repr_len(b: Seq<u8>) {
    }

    proof fn lemma_repr_injective(v: Self, w: Self) {
        lemma_auto_spec_u16_to_from_le_bytes();
        assert(spec_u16_to_le_bytes(v as u16).len() == 2);
        assert(spec_u16_to_le_bytes(w as u16).len() == 2);
        assert(spec_u16_from_le_bytes(spec_u16_to_le_bytes(v as u16)) == v as u16);
        assert(spec_u16_from_le_bytes(spec_u16_to_le_bytes(w as u16)) == w as u16);
        assert(v as u16 == w as u16 ==> v == w) by (bit_vector);
    }

    fn size_in_bytes() -> usize {
        2
    }

    fn to_bytes(&self) -> (b: Vec<u8>) {
        u16_to_le_bytes(#[verifier::truncate] (*self as u16))
    }

    fn bytes_valid(b: &[u8]) -> bool {
        b.len() == 2
    }

    fn from_bytes(b: &[u8]) -> (v: Self) {
        let x = u16_from_le_bytes(b);
        let v = #[verifier::truncate] (x as i16);
        proof {
            assert((x as i16) as u16 == x) by (bit_vector);
            lemma_auto_spec_u16_to_from_le_bytes();
        }
        v
    }
}

impl FixedLayout for i32 {
    open spec fn byte_size() -> nat {
        4
    }

    open spec fn repr(&self) -> Seq<u8> {
        spec_u32_to_le_bytes(*self as u32)
    }

    open spec fn valid_repr(b: Seq<u8>) -> bool {
        b.len() == 4
    }

    proof fn lemma_repr_valid(v: Self) {
        lemma_auto_spec_u32_to_from_le_bytes();
    }

    proof fn lemma_valid_repr_len(b: Seq<u8>) {
    }

    proof fn lemma_repr_injective(v: Self, w: Self) {
        lemma_auto_spec_u32_to_from_le_bytes();
        assert(spec_u32_to_le_bytes(v as u32).len() == 4);
        assert(spec_u32_to_le_bytes(w as u32).len() == 4);
        assert(spec_u32_from_le_bytes(spec_u32_to_le_bytes(v as u32)) == v as u32);
        assert(spec_u32_from_le_bytes(spec_u32_to_le_bytes(w as u32)) == w as u32);
        assert(v as u32 == w as u32 ==> v == w) by (bit_vector);
    }

    fn size_in_bytes() -> usize {
        4
    }

    fn to_bytes(&self) -> (b: Vec<u8>) {
        u32_to_le_bytes(#[verifier::truncate] (*self as u32))
    }

    fn bytes_valid(b: &[u8]) -> bool {
        b.len() == 4
    }

    fn from_bytes(b: &[u8]) -> (v: Self) {
        let x = u32_from_le_bytes(b);
        let v = #[verifier::truncate] (x as i32);
        proof {
            assert((x as i32) as u32 == x) by (bit_vector);
            lemma_auto_spec_u32_to_from_le_bytes();
        }
        v
    }
}

impl FixedLayout for i64 {
    open spec fn byte_size() -> nat {
        8
    }

    open spec fn repr(&self) -> Seq<u8> {
        spec_u64_to_le_bytes(*self as u64)
    }

    open spec fn valid_repr(b: Seq<u8>) -> bool {
        b.len() == 8
    }

    proof fn lemma_repr_valid(v: Self) {
        lemma_auto_spec_u64_to_from_le_bytes();
    }

    proof fn lemma_valid_repr_len(b: Seq<u8>) {
    }

    proof fn lemma_repr_injective(v: Self, w: Self) {
        lemma_auto_spec_u64_to_from_le_bytes();
        assert(spec_u64_from_le_bytes(spec_u64_to_le_bytes(v as u64)) == v as u64);
        assert(spec_u64_from_le_bytes(spec_u64_to_le_bytes(w as u64)) == w as u64);
        assert(v as u64 == w as u64 ==> v == w) by (bit_vector);
    }

    fn size_in_bytes() -> usize {
        8
    }

    fn to_bytes(&self) -> (b: Vec<u8>) {
        u64_to_le_bytes(#[verifier::truncate] (*self as u64))
    }

    fn bytes_valid(b: &[u8]) -> bool {
        b.len() == 8
    }

    fn from_bytes(b: &[u8]) -> (v: Self) {
        let x = u64_from_le_bytes(b);
        let v = #[verifier::truncate] (x as i64);
        proof {
            assert((x as i64) as u64 == x) by (bit_vector);
            lemma_auto_spec_u64_to_from_le_bytes();
        }
        v
    }
}

/// Relies on `char::from_u32`: it returns `Some` exactly when the argument is
/// a Unicode scalar value (neither a surrogate nor above `char::MAX`), and the
/// character returned has the argument as its scalar value.
pub assume_specification[ char::from_u32 ](i: u32) -> (r: Option<char>)
    ensures
        r is Some <==> is_scalar(i),
        r matches Some(c) ==> c as u32 == i,
;

/// A character carried as its raw 32-bit storage.
///
/// The representation of a character is the 32-bit value of its code point,
/// and this type is exactly that storage, with no validity restriction:
/// every 4-byte sequence is the representation of some `CharBits`, so
/// reading one back accepts any bit pattern, as raw reinterpretation does.
/// Turning the storage into an actual `char` is a separate, fallible step —
/// [`to_char`](CharBits::to_char) — because only Unicode scalar values are
/// characters.
#[derive(Debug, Clone, Copy, PartialEq, Eq, Structural)]
pub struct CharBits(pub u32);

impl CharBits {
    /// The raw storage of `c`: its scalar value, which is always one a
    /// later [`to_char`](CharBits::to_char) accepts.
    pub fn from_char(c: char) -> (r: CharBits)
        ensures
            r.0 == c as u32,
            is_scalar(r.0),
    {
        proof {
            char_is_scalar(c);
        }
        CharBits(c as u32)
    }

    /// The character whose storage this is: `Some` exactly when the value
    /// is a Unicode scalar, and then the character with that scalar value.
    pub fn to_char(self) -> (r: Option<char>)
        ensures
            r is Some <==> is_scalar(self.0),
            r matches Some(c) ==> c as u32 == self.0,
    {
        char::from_u32(self.0)
    }
}

/// Characters with the same raw storage are the same character, so the
/// round trip through [`CharBits`] loses nothing.
pub proof fn lemma_char_bits_injective(c: char, d: char)
    requires
        c as u32 == d as u32,
    ensures
        c == d,
{
    char_u32_cast(c, c as u32);
    char_u32_cast(d, d as u32);
    assert(c == (c as u32) as char && d == (d as u32) as char);
}

impl FixedLayout for CharBits {
    open spec fn byte_size() -> nat {
        4
    }

    open spec fn repr(&self) -> Seq<u8> {
        spec_u32_to_le_bytes(self.0)
    }

    open spec fn valid_repr(b: Seq<u8>) -> bool {
        b.len() == 4
    }

    proof fn lemma_repr_valid(v: Self) {
        lemma_auto_spec_u32_to_from_le_bytes();
    }

    proof fn lemma_valid_repr_len(b: Seq<u8>) {
    }

    proof fn lemma_repr_injective(v: Self, w: Self) {
        lemma_auto_spec_u32_to_from_le_bytes();
        assert(spec_u32_to_le_bytes(v.0).len() == 4);
        assert(spec_u32_to_le_bytes(w.0).len() == 4);
        assert(spec_u32_from_le_bytes(spec_u32_to_le_bytes(v.0)) == v.0);
        assert(spec_u32_from_le_bytes(spec_u32_to_le_bytes(w.0)) == w.0);
    }

    fn size_in_bytes() -> usize {
        4
    }

    fn to_bytes(&self) -> (b: Vec<u8>) {
        u32_to_le_bytes(self.0)
    }

    fn bytes_valid(b: &[u8]) -> bool {
        b.len() == 4
    }

    fn from_bytes(b: &[u8]) -> (v: Self) {
        let x = u32_from_le_bytes(b);
        proof {
            lemma_auto_spec_u32_to_from_le_bytes();
        }
        CharBits(x)
    }
}

} // verus!
