//! The encodable types: what has a natural size, an alignment and an
//! encoding, and how aggregates are composed from their members.

use vstd::prelude::*;
use crate::layout::{
    align_to, le_bytes, lemma_remainder_of_smaller, lemma_round_up, pad_to, remainder, round_up,
    write_word, Alignment,
};
use crate::math::{F32, Mat4, Vec2, Vec3, Vec4};

verus! {

/// The largest natural size that a type of this layout has.
pub const MAX_SIZE: usize = 65536;

/// A type with a place in the host-shareable layout.
///
/// `size` and `alignment` belong to the type, `encoding` to each value. A
/// value's encoding is `size` bytes long and does not depend on where it is
/// written.
pub trait ShaderType: Sized {
    /// The natural size of the type, in bytes.
    spec fn size() -> nat;

    /// The alignment of the type.
    spec fn alignment() -> Alignment;

    /// The bytes of the value.
    spec fn encoding(&self) -> Seq<u8>;

    /// The size is neither zero nor above the largest.
    proof fn lemma_layout()
        ensures
            0 < Self::size() <= MAX_SIZE,
    ;

    /// Every value of the type is encoded in `size` bytes.
    proof fn lemma_encoding_len(&self)
        ensures
            self.encoding().len() == Self::size(),
    ;

    /// The natural size of the type, in bytes.
    fn byte_size() -> (n: usize)
        ensures
            n == Self::size(),
    ;

    /// The alignment of the type.
    fn byte_alignment() -> (a: Alignment)
        ensures
            a == Self::alignment(),
    ;

    /// Appends the encoding of the value to `out`.
    fn write_into(&self, out: &mut Vec<u8>)
        ensures
            final(out)@ == old(out)@ + self.encoding(),
    ;
}

/// Where a member of type `T` starts in an aggregate that is `prefix_len`
/// bytes long so far.
pub open spec fn member_offset<T: ShaderType>(prefix_len: nat) -> nat {
    round_up(prefix_len, T::alignment())
}

/// Where a member of type `T` ends, its padding included, in an aggregate
/// that is `prefix_len` bytes long so far.
pub open spec fn member_end<T: ShaderType>(prefix_len: nat) -> nat {
    round_up(member_offset::<T>(prefix_len) + T::size(), T::alignment())
}

/// The bytes of an aggregate after `value` is laid out behind `prefix`.
#[verifier::opaque]
pub open spec fn with_member<T: ShaderType>(prefix: Seq<u8>, value: T) -> Seq<u8> {
    pad_to(pad_to(prefix, T::alignment()) + value.encoding(), T::alignment())
}

/// The bytes of an aggregate whose members are `body`: it ends on a multiple
/// of its alignment.
pub open spec fn aggregate(body: Seq<u8>, align: Alignment) -> Seq<u8> {
    pad_to(body, align)
}

/// A member is found at its offset, and the aggregate grows to the member's
/// end.
pub proof fn lemma_with_member<T: ShaderType>(prefix: Seq<u8>, value: T)
    ensures
        with_member(prefix, value).len() == member_end::<T>(prefix.len()),
        with_member(prefix, value).subrange(0, prefix.len() as int) == prefix,
        member_offset::<T>(prefix.len()) + T::size() <= with_member(prefix, value).len(),
        with_member(prefix, value).subrange(
            member_offset::<T>(prefix.len()) as int,
            (member_offset::<T>(prefix.len()) + T::size()) as int,
        ) == value.encoding(),
        remainder(member_offset::<T>(prefix.len()), T::alignment()) == 0,
{
    reveal(with_member);
    T::lemma_layout();
    value.lemma_encoding_len();
    let a = T::alignment();
    lemma_round_up(prefix.len(), a);
    lemma_round_up(round_up(prefix.len(), a) + T::size(), a);
    let laid = with_member(prefix, value);
    let start = member_offset::<T>(prefix.len());
    assert(laid.subrange(0, prefix.len() as int) =~= prefix);
    assert(laid.subrange(start as int, (start + T::size()) as int) =~= value.encoding());
}

/// Laying out one more member leaves the bytes of the members before it as
/// they are.
pub proof fn lemma_member_kept<T: ShaderType>(prefix: Seq<u8>, value: T, from: int, to: int)
    requires
        0 <= from <= to <= prefix.len(),
    ensures
        with_member(prefix, value).subrange(from, to) == prefix.subrange(from, to),
{
    reveal(with_member);
    assert(with_member(prefix, value).subrange(from, to) =~= prefix.subrange(from, to));
}

/// A three-component vector that is a member of an aggregate takes sixteen
/// bytes: the member behind it, whatever its type, starts sixteen bytes
/// behind the start of the vector.
pub proof fn lemma_vec3_member_stride<T: ShaderType>(prefix_len: nat)
    ensures
        member_offset::<T>(member_end::<Vec3>(prefix_len)) - member_offset::<Vec3>(prefix_len)
            == 16,
        (member_offset::<T>(member_end::<Vec3>(prefix_len)) - member_offset::<Vec3>(prefix_len))
            % 16 == 0,
{
    let start = member_offset::<Vec3>(prefix_len);
    let end = member_end::<Vec3>(prefix_len);
    lemma_round_up(prefix_len, Alignment::Sixteen);
    assert(end == start + 16);
    lemma_remainder_of_smaller(end, Alignment::Sixteen, T::alignment());
    lemma_round_up(end, T::alignment());
}

/// An aggregate whose last member is a three-component vector ends sixteen
/// bytes behind the start of the vector.
pub proof fn lemma_vec3_last_member_stride(prefix_len: nat)
    ensures
        round_up(member_end::<Vec3>(prefix_len), Alignment::Sixteen) - member_offset::<Vec3>(
            prefix_len,
        ) == 16,
{
    let start = member_offset::<Vec3>(prefix_len);
    let end = member_end::<Vec3>(prefix_len);
    lemma_round_up(prefix_len, Alignment::Sixteen);
    assert(end == start + 16);
    lemma_round_up(end, Alignment::Sixteen);
}

/// Lays `value` out as the next member of the aggregate that starts at
/// `base` in `out`.
pub fn write_member<T: ShaderType>(out: &mut Vec<u8>, base: usize, value: &T)
    requires
        base <= old(out).len(),
    ensures
        base <= final(out).len(),
        final(out)@.take(base as int) == old(out)@.take(base as int),
        final(out)@.skip(base as int) == with_member(old(out)@.skip(base as int), *value),
{
    let align = T::byte_alignment();
    align_to(out, base, align);
    value.write_into(out);
    align_to(out, base, align);
    reveal(with_member);
    assert(out@.take(base as int) =~= old(out)@.take(base as int));
    assert(out@.skip(base as int) =~= with_member(old(out)@.skip(base as int), *value));
}

/// Ends the aggregate that starts at `base` in `out` on a multiple of
/// `align`.
pub fn close_aggregate(out: &mut Vec<u8>, base: usize, align: Alignment)
    requires
        base <= old(out).len(),
    ensures
        base <= final(out).len(),
        final(out)@.take(base as int) == old(out)@.take(base as int),
        final(out)@.skip(base as int) == aggregate(old(out)@.skip(base as int), align),
{
    align_to(out, base, align);
    assert(out@.take(base as int) =~= old(out)@.take(base as int));
    assert(out@.skip(base as int) =~= aggregate(old(out)@.skip(base as int), align));
}

/// What was written behind `before` is an aggregate's whole encoding.
pub proof fn lemma_written(before: Seq<u8>, after: Seq<u8>, written: Seq<u8>)
    requires
        before.len() <= after.len(),
        after.take(before.len() as int) == before.take(before.len() as int),
        after.skip(before.len() as int) == written,
    ensures
        after == before + written,
{
    assert(after =~= after.take(before.len() as int) + after.skip(before.len() as int));
    assert(before.take(before.len() as int) =~= before);
}

impl ShaderType for u32 {
    open spec fn size() -> nat {
        4
    }

    open spec fn alignment() -> Alignment {
        Alignment::Four
    }

    open spec fn encoding(&self) -> Seq<u8> {
        le_bytes(*self)
    }

    proof fn lemma_layout() {
    }

    proof fn lemma_encoding_len(&self) {
    }

    fn byte_size() -> (n: usize) {
        4
    }

    fn byte_alignment() -> (a: Alignment) {
        Alignment::Four
    }

    fn write_into(&self, out: &mut Vec<u8>) {
        write_word(out, *self);
    }
}

impl ShaderType for F32 {
    open spec fn size() -> nat {
        4
    }

    open spec fn alignment() -> Alignment {
        Alignment::Four
    }

    open spec fn encoding(&self) -> Seq<u8> {
        le_bytes(self.bits)
    }

    proof fn lemma_layout() {
    }

    proof fn lemma_encoding_len(&self) {
    }

    fn byte_size() -> (n: usize) {
        4
    }

    fn byte_alignment() -> (a: Alignment) {
        Alignment::Four
    }

    fn write_into(&self, out: &mut Vec<u8>) {
        write_word(out, self.bits);
    }
}

impl ShaderType for Vec2 {
    open spec fn size() -> nat {
        8
    }

    open spec fn alignment() -> Alignment {
        Alignment::Eight
    }

    open spec fn encoding(&self) -> Seq<u8> {
        self.x.encoding() + self.y.encoding()
    }

    proof fn lemma_layout() {
    }

    proof fn lemma_encoding_len(&self) {
    }

    fn byte_size() -> (n: usize) {
        8
    }

    fn byte_alignment() -> (a: Alignment) {
        Alignment::Eight
    }

    fn write_into(&self, out: &mut Vec<u8>) {
        self.x.write_into(out);
        self.y.write_into(out);
        assert(out@ =~= old(out)@ + self.encoding());
    }
}

impl ShaderType for Vec3 {
    open spec fn size() -> nat {
        12
    }

    open spec fn alignment() -> Alignment {
        Alignment::Sixteen
    }

    open spec fn encoding(&self) -> Seq<u8> {
        self.x.encoding() + self.y.encoding() + self.z.encoding()
    }

    proof fn lemma_layout() {
    }

    proof fn lemma_encoding_len(&self) {
    }

    fn byte_size() -> (n: usize) {
        12
    }

    fn byte_alignment() -> (a: Alignment) {
        Alignment::Sixteen
    }

    fn write_into(&self, out: &mut Vec<u8>) {
        self.x.write_into(out);
        self.y.write_into(out);
        self.z.write_into(out);
        assert(out@ =~= old(out)@ + self.encoding());
    }
}

impl ShaderType for Vec4 {
    open spec fn size() -> nat {
        16
    }

    open spec fn alignment() -> Alignment {
        Alignment::Sixteen
    }

    open spec fn encoding(&self) -> Seq<u8> {
        self.x.encoding() + self.y.encoding() + self.z.encoding() + self.w.encoding()
    }

    proof fn lemma_layout() {
    }

    proof fn lemma_encoding_len(&self) {
    }

    fn byte_size() -> (n: usize) {
        16
    }

    fn byte_alignment() -> (a: Alignment) {
        Alignment::Sixteen
    }

    fn write_into(&self, out: &mut Vec<u8>) {
        self.x.write_into(out);
        self.y.write_into(out);
        self.z.write_into(out);
        self.w.write_into(out);
        assert(out@ =~= old(out)@ + self.encoding());
    }
}

impl ShaderType for Mat4 {
    open spec fn size() -> nat {
        64
    }

    open spec fn alignment() -> Alignment {
        Alignment::Sixteen
    }

    open spec fn encoding(&self) -> Seq<u8> {
        self.x_axis.encoding() + self.y_axis.encoding() + self.z_axis.encoding()
            + self.w_axis.encoding()
    }

    proof fn lemma_layout() {
    }

    proof fn lemma_encoding_len(&self) {
        self.x_axis.lemma_encoding_len();
        self.y_axis.lemma_encoding_len();
        self.z_axis.lemma_encoding_len();
        self.w_axis.lemma_encoding_len();
    }

    fn byte_size() -> (n: usize) {
        64
    }

    fn byte_alignment() -> (a: Alignment) {
        Alignment::Sixteen
    }

    fn write_into(&self, out: &mut Vec<u8>) {
        self.x_axis.write_into(out);
        self.y_axis.write_into(out);
        self.z_axis.write_into(out);
        self.w_axis.write_into(out);
        assert(out@ =~= old(out)@ + self.encoding());
    }
}

} // verus!

