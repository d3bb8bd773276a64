//! The mathematical side of the wire format: little-endian integer
//! layouts, two's-complement readings, NUL padding and NUL stripping.
//!
//! Every multi-byte integer on the wire is little-endian; text fields
//! occupy a fixed number of bytes and are padded with NUL bytes.  The
//! spec functions here are the single place those rules are written
//! down; the executable codec in [`crate::protocol`] is proved against
//! them.

use vstd::prelude::*;

verus! {

/// The value of two little-endian bytes.
pub open spec fn le16(b0: u8, b1: u8) -> u16 {
    (b0 + b1 * 0x100) as u16
}

/// The value of four little-endian bytes.
pub open spec fn le32(b0: u8, b1: u8, b2: u8, b3: u8) -> u32 {
    (b0 + b1 * 0x100 + b2 * 0x10000 + b3 * 0x1000000) as u32
}

/// The two little-endian bytes of a 16-bit value.
pub open spec fn u16_le(v: u16) -> Seq<u8> {
    seq![(v % 0x100) as u8, (v / 0x100) as u8]
}

/// The four little-endian bytes of a 32-bit value.
pub open spec fn u32_le(v: u32) -> Seq<u8> {
    seq![
        (v % 0x100) as u8,
        ((v / 0x100) % 0x100) as u8,
        ((v / 0x10000) % 0x100) as u8,
        (v / 0x1000000) as u8,
    ]
}

/// The signed reading of an 8-bit two's-complement value.
pub open spec fn i8_of_byte(b: u8) -> int {
    if b < 0x80 {
        b as int
    } else {
        b - 0x100
    }
}

/// The byte that carries an 8-bit signed value in two's complement.
pub open spec fn byte_of_i8(v: i8) -> u8 {
    if v >= 0 {
        v as u8
    } else {
        (v + 0x100) as u8
    }
}

/// The signed reading of a 16-bit two's-complement value.
pub open spec fn i16_of(u: u16) -> int {
    if u < 0x8000 {
        u as int
    } else {
        u - 0x10000
    }
}

/// The signed reading of a 32-bit two's-complement value.
pub open spec fn i32_of(u: u32) -> int {
    if u < 0x80000000 {
        u as int
    } else {
        u - 0x100000000
    }
}

/// `n` NUL bytes.
pub open spec fn zeros(n: nat) -> Seq<u8> {
    Seq::new(n, |i: int| 0u8)
}

/// A text field of exactly `n` bytes: the text, then NUL padding.
pub open spec fn padded_field(text: Seq<u8>, n: nat) -> Seq<u8>
    recommends
        text.len() <= n,
{
    text + zeros((n - text.len()) as nat)
}

/// The index of the first NUL byte, or the length if there is none.
pub open spec fn nul_pos(b: Seq<u8>) -> int
    decreases b.len(),
{
    if b.len() == 0 {
        0
    } else if b[0] == 0 {
        0
    } else {
        1 + nul_pos(b.drop_first())
    }
}

/// The prefix that stands before the first NUL byte.
pub open spec fn before_nul(b: Seq<u8>) -> Seq<u8> {
    b.take(nul_pos(b))
}

/// The sequence with every trailing NUL byte removed.
pub open spec fn strip_nuls(b: Seq<u8>) -> Seq<u8>
    decreases b.len(),
{
    if b.len() == 0 {
        b
    } else if b[b.len() - 1] == 0 {
        strip_nuls(b.drop_last())
    } else {
        b
    }
}

/// What `nul_pos` finds: the first NUL, with nothing but non-NUL
/// bytes before it.
pub proof fn lemma_nul_pos(b: Seq<u8>)
    ensures
        0 <= nul_pos(b) <= b.len(),
        forall|j: int| 0 <= j < nul_pos(b) ==> b[j] != 0,
        nul_pos(b) < b.len() ==> b[nul_pos(b)] == 0,
    decreases b.len(),
{
    if b.len() != 0 && b[0] != 0 {
        lemma_nul_pos(b.drop_first());
        assert forall|j: int| 0 <= j < nul_pos(b) implies b[j] != 0 by {
            if j > 0 {
                assert(b.drop_first()[j - 1] != 0);
            }
        }
    }
}

/// `nul_pos` is the only cut that leaves non-NUL bytes on the left and
/// a NUL (or the end) on the right.
pub proof fn lemma_nul_pos_unique(b: Seq<u8>, i: int)
    requires
        0 <= i <= b.len(),
        forall|j: int| 0 <= j < i ==> b[j] != 0,
        i < b.len() ==> b[i] == 0,
    ensures
        nul_pos(b) == i,
{
    lemma_nul_pos(b);
    if nul_pos(b) < i {
        assert(b[nul_pos(b)] != 0);
    }
    if i < nul_pos(b) {
        assert(b[i] != 0);
    }
}

/// A sequence whose last byte is not NUL strips to itself.
pub proof fn lemma_strip_nuls_noop(b: Seq<u8>)
    requires
        b.len() == 0 || b[b.len() - 1] != 0,
    ensures
        strip_nuls(b) == b,
{
}

/// Stripping the padding of a field gives the text back, provided the
/// text itself does not end in a NUL byte.
pub proof fn lemma_strip_padded_field(text: Seq<u8>, n: nat)
    requires
        text.len() <= n,
        text.len() == 0 || text[text.len() - 1] != 0,
    ensures
        strip_nuls(padded_field(text, n)) == text,
    decreases n - text.len(),
{
    let field = padded_field(text, n);
    if text.len() == n {
        assert(field =~= text);
        lemma_strip_nuls_noop(text);
    } else {
        assert(field[field.len() - 1] == 0);
        assert(field.drop_last() =~= padded_field(text, (n - 1) as nat));
        lemma_strip_padded_field(text, (n - 1) as nat);
    }
}

/// The text of a padded field stands before its first NUL byte,
/// provided the text itself holds no NUL byte.
pub proof fn lemma_before_nul_padded_field(text: Seq<u8>, n: nat)
    requires
        text.len() <= n,
        forall|j: int| 0 <= j < text.len() ==> text[j] != 0,
    ensures
        before_nul(padded_field(text, n)) == text,
{
    let field = padded_field(text, n);
    lemma_nul_pos_unique(field, text.len() as int);
    assert(before_nul(field) =~= text);
}

/// Law: numeric field round trip.  A 16-bit value written as its two
/// little-endian bytes and read back is the same value.
pub proof fn lemma_le16_round_trip(v: u16)
    ensures
        le16(u16_le(v)[0], u16_le(v)[1]) == v,
{
}

/// Law: numeric field round trip.  A 32-bit value written as its four
/// little-endian bytes and read back is the same value.
pub proof fn lemma_le32_round_trip(v: u32)
    ensures
        le32(u32_le(v)[0], u32_le(v)[1], u32_le(v)[2], u32_le(v)[3]) == v,
{
    assert(le32(u32_le(v)[0], u32_le(v)[1], u32_le(v)[2], u32_le(v)[3]) == v) by (nonlinear_arith);
}

} // verus!
