//! The host-shareable memory layout: alignment, padding and the writing of
//! words and gaps.
//!
//! Every encodable type has a natural size and an alignment. A member of an
//! aggregate starts at the smallest offset, at or behind the end of the
//! member before it, that is a multiple of its own alignment, and it takes
//! its size rounded up to its alignment: a three-component vector takes the
//! sixteen bytes of a four-component one. An aggregate is as aligned as its
//! most aligned member and ends on a multiple of its alignment. Gaps are
//! filled with zero bytes. Scalars are written little-endian.

use vstd::prelude::*;

verus! {

/// The alignments of this layout.
#[derive(Clone, Copy, Debug, PartialEq, Eq, Structural)]
pub enum Alignment {
    /// Four bytes: scalars.
    Four,
    /// Eight bytes: two-component vectors.
    Eight,
    /// Sixteen bytes: wider vectors, matrices and uniform blocks.
    Sixteen,
}

impl Alignment {
    /// The alignment in bytes.
    pub open spec fn bytes(self) -> nat {
        match self {
            Alignment::Four => 4,
            Alignment::Eight => 8,
            Alignment::Sixteen => 16,
        }
    }

    /// The alignment in bytes.
    pub fn in_bytes(self) -> (n: usize)
        ensures
            n == self.bytes(),
    {
        match self {
            Alignment::Four => 4,
            Alignment::Eight => 8,
            Alignment::Sixteen => 16,
        }
    }

    /// The larger of two alignments.
    pub open spec fn spec_max(self, other: Alignment) -> Alignment {
        if self.bytes() >= other.bytes() {
            self
        } else {
            other
        }
    }

    /// The larger of two alignments.
    #[verifier::when_used_as_spec(spec_max)]
    pub fn max(self, other: Alignment) -> (larger: Alignment)
        ensures
            larger == self.spec_max(other),
    {
        if self.in_bytes() >= other.in_bytes() {
            self
        } else {
            other
        }
    }
}

/// How far `offset` lies behind the last multiple of `align`.
pub open spec fn remainder(offset: nat, align: Alignment) -> nat {
    match align {
        Alignment::Four => offset % 4,
        Alignment::Eight => offset % 8,
        Alignment::Sixteen => offset % 16,
    }
}

/// How many bytes lie between `offset` and the next multiple of `align`.
pub open spec fn padding(offset: nat, align: Alignment) -> nat {
    if remainder(offset, align) == 0 {
        0
    } else {
        (align.bytes() - remainder(offset, align)) as nat
    }
}

/// The smallest multiple of `align` that is not below `offset`.
pub open spec fn round_up(offset: nat, align: Alignment) -> nat {
    offset + padding(offset, align)
}

/// `n` zero bytes.
pub open spec fn zeros(n: nat) -> Seq<u8> {
    Seq::new(n, |i: int| 0u8)
}

/// `bytes`, continued with zero bytes up to the next multiple of `align`.
pub open spec fn pad_to(bytes: Seq<u8>, align: Alignment) -> Seq<u8> {
    bytes + zeros(padding(bytes.len(), align))
}

/// `bytes`, continued with zero bytes up to `len` bytes.
pub open spec fn pad_to_len(bytes: Seq<u8>, len: nat) -> Seq<u8>
    recommends
        bytes.len() <= len,
{
    bytes + zeros((len - bytes.len()) as nat)
}

/// The four bytes of `word`, least significant first.
pub open spec fn le_bytes(word: u32) -> Seq<u8> {
    seq![
        (word % 256) as u8,
        (word / 256 % 256) as u8,
        (word / 65536 % 256) as u8,
        (word / 16777216) as u8,
    ]
}

/// `remainder` is the remainder of the division by the alignment.
pub proof fn lemma_remainder(offset: nat, align: Alignment)
    ensures
        remainder(offset, align) == offset % align.bytes(),
        remainder(offset, align) < align.bytes(),
{
}

/// `round_up` gives a multiple of the alignment, at or behind the offset and
/// less than one alignment away from it.
pub proof fn lemma_round_up(offset: nat, align: Alignment)
    ensures
        remainder(round_up(offset, align), align) == 0,
        offset <= round_up(offset, align) < offset + align.bytes(),
        remainder(offset, align) == 0 ==> round_up(offset, align) == offset,
{
}

/// No multiple of the alignment lies between the offset and `round_up` of it.
pub proof fn lemma_round_up_least(offset: nat, align: Alignment, multiple: nat)
    requires
        offset <= multiple,
        remainder(multiple, align) == 0,
    ensures
        round_up(offset, align) <= multiple,
{
}

/// A multiple of a larger alignment is a multiple of every smaller one.
pub proof fn lemma_remainder_of_smaller(offset: nat, align: Alignment, smaller: Alignment)
    requires
        remainder(offset, align) == 0,
        smaller.bytes() <= align.bytes(),
    ensures
        remainder(offset, smaller) == 0,
{
}

/// Appends the four bytes of `word`, least significant first.
pub fn write_word(out: &mut Vec<u8>, word: u32)
    ensures
        final(out)@ == old(out)@ + le_bytes(word),
{
    out.push((word % 256) as u8);
    out.push((word / 256 % 256) as u8);
    out.push((word / 65536 % 256) as u8);
    out.push((word / 16777216) as u8);
    assert(out@ =~= old(out)@ + le_bytes(word));
}

/// Appends `n` zero bytes.
pub fn write_zeros(out: &mut Vec<u8>, n: usize)
    ensures
        final(out)@ == old(out)@ + zeros(n as nat),
{
    let mut i: usize = 0;
    while i < n
        invariant
            i <= n,
            out@ == old(out)@ + zeros(i as nat),
        decreases n - i,
    {
        out.push(0u8);
        i = i + 1;
        assert(out@ =~= old(out)@ + zeros(i as nat));
    }
}

/// How many bytes lie between `offset` and the next multiple of `align`.
pub fn padding_for(offset: usize, align: Alignment) -> (pad: usize)
    ensures
        pad == padding(offset as nat, align),
{
    let rest = match align {
        Alignment::Four => offset % 4,
        Alignment::Eight => offset % 8,
        Alignment::Sixteen => offset % 16,
    };
    if rest == 0 {
        0
    } else {
        align.in_bytes() - rest
    }
}

/// Appends zero bytes until the part of `out` from `base` on is a multiple
/// of `align` long.
pub fn align_to(out: &mut Vec<u8>, base: usize, align: Alignment)
    requires
        base <= old(out).len(),
    ensures
        final(out)@ == old(out)@ + zeros(padding((old(out).len() - base) as nat, align)),
{
    let pad = padding_for(out.len() - base, align);
    write_zeros(out, pad);
}

} // verus!
