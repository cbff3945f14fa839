//! Byte buffers for the two binding classes: a uniform block holds one
//! value, a storage array holds a count and a sequence of values of one
//! type.

use vstd::prelude::*;
use crate::encode::ShaderType;
use crate::layout::{
    align_to, le_bytes, lemma_round_up, pad_to, pad_to_len, padding_for, remainder, round_up,
    write_word, write_zeros, Alignment,
};
use crate::text::{decimal, decimal_text};

verus! {

/// The size of the header of a storage array with natural stride: the count,
/// padded.
pub const PADDED_HEADER_SIZE: usize = 16;

/// The size of the header of a storage array with fixed stride: the count
/// alone.
pub const BARE_HEADER_SIZE: usize = 4;

/// How the elements of a storage array are spaced.
///
/// The two policies give different bytes for the same elements: whoever
/// reads a buffer has to know which one wrote it.
#[derive(Clone, Copy, Debug, PartialEq, Eq, Structural)]
pub enum StridePolicy {
    /// The count is padded to sixteen bytes and every element takes its
    /// natural size rounded up to its alignment.
    Natural,
    /// The count takes four bytes and every element takes `stride` bytes,
    /// whatever its natural size.
    Fixed { stride: usize },
}

/// Why a storage array could not be encoded.
#[derive(Clone, Copy, Debug, PartialEq, Eq, Structural)]
pub enum LayoutError {
    /// The stride asked for is smaller than the natural size of an element.
    StrideTooSmall { stride: usize, natural_size: usize },
}

/// The text that says that elements of natural size `natural_size` cannot be
/// `stride` bytes apart in the array called `array`.
pub open spec fn refusal_text(array: Seq<char>, stride: nat, natural_size: nat) -> Seq<char> {
    "cannot encode `"@ + array + "`: a stride of "@ + decimal(stride)
        + " bytes is smaller than the natural size of an element, "@ + decimal(natural_size)
        + " bytes"@
}

impl LayoutError {
    /// Says what went wrong with the array called `array`.
    pub fn message(&self, array: &str) -> (text: String)
        ensures
            text@ == refusal_text(array@, self->stride as nat, self->natural_size as nat),
    {
        match self {
            LayoutError::StrideTooSmall { stride, natural_size } => {
                let mut text = String::from_str("cannot encode `");
                text.append(array);
                text.append("`: a stride of ");
                text.append(decimal_text(*stride).as_str());
                text.append(" bytes is smaller than the natural size of an element, ");
                text.append(decimal_text(*natural_size).as_str());
                text.append(" bytes");
                text
            },
        }
    }
}

/// The alignment of the uniform block that holds a `T`: that of `T`, and
/// sixteen bytes at least.
pub open spec fn uniform_alignment<T: ShaderType>() -> Alignment {
    T::alignment().spec_max(Alignment::Sixteen)
}

/// The bytes of the uniform block that holds `value`.
pub open spec fn uniform_encoding<T: ShaderType>(value: T) -> Seq<u8> {
    pad_to(value.encoding(), uniform_alignment::<T>())
}

/// The size of the header that `policy` puts before the elements.
pub open spec fn header_size(policy: StridePolicy) -> nat {
    match policy {
        StridePolicy::Natural => PADDED_HEADER_SIZE as nat,
        StridePolicy::Fixed { .. } => BARE_HEADER_SIZE as nat,
    }
}

/// The distance in bytes between the starts of two neighbouring elements of
/// type `T` under `policy`.
pub open spec fn stride_of<T: ShaderType>(policy: StridePolicy) -> nat {
    match policy {
        StridePolicy::Natural => round_up(T::size(), T::alignment()),
        StridePolicy::Fixed { stride } => stride as nat,
    }
}

/// Whether elements of type `T` can be spaced as `policy` says.
pub open spec fn admits<T: ShaderType>(policy: StridePolicy) -> bool {
    policy matches StridePolicy::Fixed { stride } ==> T::size() <= stride
}

/// The error that tells that `policy` does not admit elements of type `T`.
pub open spec fn refusal<T: ShaderType>(policy: StridePolicy) -> LayoutError {
    LayoutError::StrideTooSmall { stride: policy->stride, natural_size: T::size() as usize }
}

/// The header of a storage array of `count` elements.
pub open spec fn header(count: nat, policy: StridePolicy) -> Seq<u8> {
    pad_to_len(le_bytes(count as u32), header_size(policy))
}

/// The bytes that one element takes in a storage array.
pub open spec fn element<T: ShaderType>(value: T, policy: StridePolicy) -> Seq<u8> {
    pad_to_len(value.encoding(), stride_of::<T>(policy))
}

/// The bytes of the elements of a storage array, in order.
pub open spec fn elements<T: ShaderType>(items: Seq<T>, policy: StridePolicy) -> Seq<u8>
    decreases items.len(),
{
    if items.len() == 0 {
        Seq::empty()
    } else {
        elements(items.drop_last(), policy) + element(items.last(), policy)
    }
}

/// The bytes of a storage array: the header, then the elements.
pub open spec fn storage_encoding<T: ShaderType>(items: Seq<T>, policy: StridePolicy) -> Seq<u8> {
    header(items.len(), policy) + elements(items, policy)
}

/// A uniform block is sixteen-byte aligned and a whole number of alignments
/// long, and it starts with the encoding of its value.
pub proof fn lemma_uniform_aligned<T: ShaderType>(value: T)
    ensures
        uniform_alignment::<T>() == Alignment::Sixteen,
        uniform_encoding(value).len() % uniform_alignment::<T>().bytes() == 0,
        uniform_encoding(value).len() == round_up(T::size(), uniform_alignment::<T>()),
        uniform_encoding(value).subrange(0, T::size() as int) == value.encoding(),
{
    T::lemma_layout();
    value.lemma_encoding_len();
    assert(uniform_encoding(value).subrange(0, T::size() as int) =~= value.encoding());
}

/// The elements of a storage array take one stride each.
pub proof fn lemma_elements_len<T: ShaderType>(items: Seq<T>, policy: StridePolicy)
    requires
        admits::<T>(policy),
    ensures
        elements(items, policy).len() == items.len() * stride_of::<T>(policy),
    decreases items.len(),
{
    T::lemma_layout();
    lemma_round_up(T::size(), T::alignment());
    if items.len() > 0 {
        lemma_elements_len(items.drop_last(), policy);
        items.last().lemma_encoding_len();
        let n = items.len() as int;
        let s = stride_of::<T>(policy) as int;
        assert((n - 1) * s + s == n * s) by (nonlinear_arith);
    } else {
        assert(0 * stride_of::<T>(policy) == 0);
    }
}

/// A storage array is exactly its header and one stride for each element
/// long.
pub proof fn lemma_storage_len<T: ShaderType>(items: Seq<T>, policy: StridePolicy)
    requires
        admits::<T>(policy),
    ensures
        storage_encoding(items, policy).len() == header_size(policy) + items.len() * stride_of::<T>(
            policy,
        ),
{
    lemma_elements_len(items, policy);
}

/// Under the natural stride an element takes its encoding, continued with
/// zero bytes to a multiple of its alignment: for a type that is aligned to
/// sixteen bytes, the bytes of the uniform block that holds it.
pub proof fn lemma_natural_element<T: ShaderType>(value: T)
    ensures
        element(value, StridePolicy::Natural) == pad_to(value.encoding(), T::alignment()),
        T::alignment() == Alignment::Sixteen ==> element(value, StridePolicy::Natural)
            == uniform_encoding(value),
{
    value.lemma_encoding_len();
    lemma_round_up(T::size(), T::alignment());
    assert(element(value, StridePolicy::Natural) =~= pad_to(value.encoding(), T::alignment()));
}

/// Under the natural stride every element starts on a multiple of the
/// alignment of its type, and so does the end of the array.
pub proof fn lemma_natural_storage_aligned<T: ShaderType>(items: Seq<T>, i: int)
    requires
        0 <= i <= items.len(),
    ensures
        remainder(
            header_size(StridePolicy::Natural) + (i * stride_of::<T>(StridePolicy::Natural)) as nat,
            T::alignment(),
        ) == 0,
        remainder(storage_encoding(items, StridePolicy::Natural).len(), T::alignment()) == 0,
{
    lemma_storage_len(items, StridePolicy::Natural);
    lemma_multiple_of_stride::<T>(i as nat);
    lemma_multiple_of_stride::<T>(items.len());
}

/// A header and any number of natural strides end on a multiple of the
/// alignment.
proof fn lemma_multiple_of_stride<T: ShaderType>(n: nat)
    ensures
        0 <= n * stride_of::<T>(StridePolicy::Natural),
        remainder(
            header_size(StridePolicy::Natural) + n * stride_of::<T>(StridePolicy::Natural),
            T::alignment(),
        ) == 0,
    decreases n,
{
    let stride = stride_of::<T>(StridePolicy::Natural);
    lemma_round_up(T::size(), T::alignment());
    if n > 0 {
        lemma_multiple_of_stride::<T>((n - 1) as nat);
        assert((n - 1) * stride + stride == n * stride) by (nonlinear_arith);
    } else {
        assert(0 * stride == 0);
    }
}

/// Element `i` of a storage array lies one header and `i` strides into it.
pub proof fn lemma_element_at<T: ShaderType>(items: Seq<T>, policy: StridePolicy, i: int)
    requires
        admits::<T>(policy),
        0 <= i < items.len(),
    ensures
        header_size(policy) + i * stride_of::<T>(policy) + T::size() <= storage_encoding(
            items,
            policy,
        ).len(),
        storage_encoding(items, policy).subrange(
            header_size(policy) + i * stride_of::<T>(policy),
            header_size(policy) + i * stride_of::<T>(policy) + T::size(),
        ) == items[i].encoding(),
    decreases items.len(),
{
    T::lemma_layout();
    lemma_round_up(T::size(), T::alignment());
    let s = stride_of::<T>(policy) as int;
    let h = header_size(policy) as int;
    let front = items.drop_last();
    lemma_elements_len(front, policy);
    lemma_elements_len(items, policy);
    items[i].lemma_encoding_len();
    let n = items.len() as int;
    assert((n - 1) * s + s == n * s) by (nonlinear_arith);
    assert(i * s + s <= n * s) by (nonlinear_arith)
        requires
            0 <= i < n,
            0 <= s,
    ;
    assert(0 <= i * s) by (nonlinear_arith)
        requires
            0 <= i,
            0 <= s,
    ;
    let whole = storage_encoding(items, policy);
    if i == n - 1 {
        assert(whole.subrange(h + i * s, h + i * s + T::size()) =~= items[i].encoding());
    } else {
        lemma_element_at(front, policy, i);
        let shorter = storage_encoding(front, policy);
        assert(le_bytes(front.len() as u32).len() == le_bytes(items.len() as u32).len());
        assert(shorter.subrange(h + i * s, h + i * s + T::size()) =~= whole.subrange(
            h + i * s,
            h + i * s + T::size(),
        ));
    }
}

/// Equal values give equal uniform blocks: the bytes depend on nothing else.
pub proof fn lemma_uniform_deterministic<T: ShaderType>(
    value: T,
    again: T,
    first: Seq<u8>,
    second: Seq<u8>,
)
    requires
        value == again,
        first == uniform_encoding(value),
        second == uniform_encoding(again),
    ensures
        first == second,
{
}

/// Equal elements under the same policy give equal storage arrays: the bytes
/// depend on nothing else.
pub proof fn lemma_storage_deterministic<T: ShaderType>(
    items: Seq<T>,
    again: Seq<T>,
    policy: StridePolicy,
    first: Seq<u8>,
    second: Seq<u8>,
)
    requires
        items == again,
        first == storage_encoding(items, policy),
        second == storage_encoding(again, policy),
    ensures
        first == second,
{
}

/// Encodes `value` as a uniform block: its encoding, continued with zero
/// bytes to a multiple of sixteen.
pub fn encode_uniform<T: ShaderType>(value: &T) -> (bytes: Vec<u8>)
    ensures
        bytes@ == uniform_encoding(*value),
        bytes@.len() % uniform_alignment::<T>().bytes() == 0,
{
    proof {
        lemma_uniform_aligned(*value);
    }
    let mut bytes: Vec<u8> = Vec::new();
    value.write_into(&mut bytes);
    align_to(&mut bytes, 0, T::byte_alignment().max(Alignment::Sixteen));
    assert(bytes@ =~= uniform_encoding(*value));
    bytes
}

/// The stride that `policy` gives elements of type `T`, or why it gives
/// none.
pub fn stride_for<T: ShaderType>(policy: StridePolicy) -> (r: Result<usize, LayoutError>)
    ensures
        match r {
            Ok(stride) => admits::<T>(policy) && stride == stride_of::<T>(policy),
            Err(e) => !admits::<T>(policy) && e == refusal::<T>(policy),
        },
{
    proof {
        T::lemma_layout();
        lemma_round_up(T::size(), T::alignment());
    }
    let size = T::byte_size();
    match policy {
        StridePolicy::Natural => {
            Ok(size + padding_for(size, T::byte_alignment()))
        },
        StridePolicy::Fixed { stride } => {
            if stride < size {
                Err(LayoutError::StrideTooSmall { stride, natural_size: size })
            } else {
                Ok(stride)
            }
        },
    }
}

/// Encodes `items` as a storage array under `policy`: the count as a
/// little-endian word in a header of the policy's size, then each element
/// in a slot one stride long, all gaps zero.
///
/// Fails, with nothing encoded, exactly when a fixed stride is smaller than
/// the natural size of an element. The count has to fit the header's word.
pub fn encode_storage_array<T: ShaderType>(items: &[T], policy: StridePolicy) -> (r: Result<
    Vec<u8>,
    LayoutError,
>)
    requires
        items@.len() <= u32::MAX,
    ensures
        match r {
            Ok(bytes) => {
                &&& admits::<T>(policy)
                &&& bytes@ == storage_encoding(items@, policy)
                &&& bytes@.len() == header_size(policy) + items@.len() * stride_of::<T>(policy)
            },
            Err(e) => !admits::<T>(policy) && e == refusal::<T>(policy),
        },
{
    let stride = match stride_for::<T>(policy) {
        Ok(stride) => stride,
        Err(e) => {
            return Err(e);
        },
    };
    let size = T::byte_size();
    let mut bytes: Vec<u8> = Vec::new();
    write_word(&mut bytes, items.len() as u32);
    match policy {
        StridePolicy::Natural => {
            write_zeros(&mut bytes, PADDED_HEADER_SIZE - BARE_HEADER_SIZE);
        },
        StridePolicy::Fixed { .. } => {},
    }
    assert(bytes@ =~= header(items@.len(), policy));
    let mut i: usize = 0;
    while i < items.len()
        invariant
            i <= items@.len(),
            admits::<T>(policy),
            stride == stride_of::<T>(policy),
            size == T::size(),
            size <= stride,
            bytes@ == header(items@.len(), policy) + elements(items@.take(i as int), policy),
        decreases items@.len() - i,
    {
        let ghost before = bytes@;
        items[i].write_into(&mut bytes);
        write_zeros(&mut bytes, stride - size);
        proof {
            items@[i as int].lemma_encoding_len();
            let next = items@.take(i + 1);
            assert(next.drop_last() =~= items@.take(i as int));
            assert(next.last() == items@[i as int]);
            assert(bytes@ =~= header(items@.len(), policy) + elements(next, policy));
        }
        i = i + 1;
    }
    proof {
        assert(items@.take(i as int) =~= items@);
        lemma_storage_len(items@, policy);
    }
    Ok(bytes)
}

/// What can be turned into the bytes of a buffer.
pub trait Storable {
    /// Whether the value fits a buffer.
    spec fn storable(&self) -> bool;

    /// The bytes of the buffer.
    spec fn bytes(&self) -> Seq<u8>;

    /// The bytes of the buffer that holds the value.
    fn into_bytes(&self) -> (out: Vec<u8>)
        requires
            self.storable(),
        ensures
            out@ == self.bytes(),
    ;
}

/// One value, to be bound as a uniform block.
pub struct Uniform<'a, T: ShaderType>(pub &'a T);

/// A sequence of values of one type, to be bound as a storage array with
/// natural stride.
pub struct Buffer<'a, T: ShaderType>(pub &'a [T]);

impl<'a, T: ShaderType> Storable for Uniform<'a, T> {
    /// Every value fits a uniform block.
    open spec fn storable(&self) -> bool {
        true
    }

    open spec fn bytes(&self) -> Seq<u8> {
        uniform_encoding(*self.0)
    }

    fn into_bytes(&self) -> (out: Vec<u8>) {
        encode_uniform(self.0)
    }
}

impl<'a, T: ShaderType> Storable for Buffer<'a, T> {
    /// The count has to fit the header's word.
    open spec fn storable(&self) -> bool {
        self.0@.len() <= u32::MAX
    }

    open spec fn bytes(&self) -> Seq<u8> {
        storage_encoding(self.0@, StridePolicy::Natural)
    }

    fn into_bytes(&self) -> (out: Vec<u8>) {
        match encode_storage_array(self.0, StridePolicy::Natural) {
            Ok(bytes) => bytes,
            Err(_) => Vec::new(),
        }
    }
}

} // verus!
