//! Buffer backend interface.
//!
//! This interface defines the low-level API buffers must implement to be usable.
use vstd::prelude::*;
use crate::buffer::BufferError;

verus! {

/// Buffer backend: creation, reading and writing of GPU buffers holding items of type `T`.
pub trait Buffer<T> where T: Copy {
    /// The inner representation of the buffer for this backend.
    type BufferRepr;

    /// The items a buffer holds, in order.
    spec fn spec_contents(buffer: &Self::BufferRepr) -> Seq<T>;

    /// Create a new buffer with a given number of default elements.
    fn new_buffer(&mut self, len: usize) -> (r: Result<Self::BufferRepr, BufferError>) where
        T: Default,
        ensures
            r matches Ok(b) ==> Self::spec_contents(&b).len() == len && forall|i: int|
                0 <= i < len ==> call_ensures(T::default, (), #[trigger] Self::spec_contents(&b)[i]),
    ;

    /// The number of items in the buffer.
    fn len(buffer: &Self::BufferRepr) -> (r: usize)
        ensures
            r == Self::spec_contents(buffer).len(),
    ;

    /// Create a new buffer holding the items of `vec`.
    fn from_vec(&mut self, vec: Vec<T>) -> (r: Result<Self::BufferRepr, BufferError>)
        ensures
            r matches Ok(b) ==> Self::spec_contents(&b) == vec@,
    ;

    /// Create a new buffer holding `len` copies of `value`.
    fn repeat(&mut self, len: usize, value: T) -> (r: Result<Self::BufferRepr, BufferError>)
        ensures
            r matches Ok(b) ==> Self::spec_contents(&b) == Seq::new(len as nat, |i: int| value),
    ;

    /// The item at index `i`, if `i` is in bounds.
    fn at(buffer: &Self::BufferRepr, i: usize) -> (r: Option<T>)
        ensures
            r == (if i < Self::spec_contents(buffer).len() {
                Some(Self::spec_contents(buffer)[i as int])
            } else {
                None
            }),
    ;

    /// All the items of the buffer.
    fn whole(buffer: &Self::BufferRepr) -> (r: Vec<T>)
        ensures
            r@ == Self::spec_contents(buffer),
    ;

    /// Set the item at index `i` to `x`; an index out of bounds is refused with
    /// [`BufferError::Overflow`].
    fn set(buffer: &mut Self::BufferRepr, i: usize, x: T) -> (r: Result<(), BufferError>)
        ensures
            i >= Self::spec_contents(old(buffer)).len() ==> r == Err::<(), BufferError>(
                BufferError::Overflow {
                    index: i,
                    buffer_len: Self::spec_contents(old(buffer)).len() as usize,
                },
            ),
            r is Ok ==> i < Self::spec_contents(old(buffer)).len() && Self::spec_contents(
                final(buffer),
            ) == Self::spec_contents(old(buffer)).update(i as int, x),
            r is Err ==> Self::spec_contents(final(buffer)) == Self::spec_contents(old(buffer)),
    ;

    /// Write all the items of `values` in the buffer, which must have as many items.
    fn write_whole(buffer: &mut Self::BufferRepr, values: &[T]) -> (r: Result<(), BufferError>)
        ensures
            values@.len() < Self::spec_contents(old(buffer)).len() ==> r == Err::<(), BufferError>(
                BufferError::TooFewValues {
                    provided_len: values@.len() as usize,
                    buffer_len: Self::spec_contents(old(buffer)).len() as usize,
                },
            ),
            values@.len() > Self::spec_contents(old(buffer)).len() ==> r == Err::<(), BufferError>(
                BufferError::TooManyValues {
                    provided_len: values@.len() as usize,
                    buffer_len: Self::spec_contents(old(buffer)).len() as usize,
                },
            ),
            r is Ok ==> Self::spec_contents(final(buffer)) == values@,
            r is Err ==> Self::spec_contents(final(buffer)) == Self::spec_contents(old(buffer)),
    ;

    /// Set every item of the buffer to `x`.
    fn clear(buffer: &mut Self::BufferRepr, x: T) -> (r: Result<(), BufferError>)
        ensures
            r is Ok ==> Self::spec_contents(final(buffer)) == Seq::new(
                Self::spec_contents(old(buffer)).len(),
                |i: int| x,
            ),
            r is Err ==> Self::spec_contents(final(buffer)) == Self::spec_contents(old(buffer)),
    ;
}

/// Buffer slicing backend: mapping a buffer onto host memory.
pub trait BufferSlice<T>: Buffer<T> where T: Copy {
    /// The representation of a read-only mapping.
    type SliceRepr;

    /// The representation of a read-write mapping.
    type SliceMutRepr;

    /// The items that a read-only mapping shows.
    spec fn spec_slice_contents(slice: &Self::SliceRepr) -> Seq<T>;

    /// Map the buffer for reading.
    fn slice_buffer(buffer: &Self::BufferRepr) -> (r: Result<Self::SliceRepr, BufferError>)
        ensures
            r matches Ok(s) ==> Self::spec_slice_contents(&s) == Self::spec_contents(buffer),
    ;

    /// The items that a read-write mapping shows.
    spec fn spec_slice_mut_contents(slice: &Self::SliceMutRepr) -> Seq<T>;

    /// Map the buffer for reading and writing.
    fn slice_buffer_mut(buffer: &mut Self::BufferRepr) -> (r: Result<Self::SliceMutRepr, BufferError>)
        ensures
            r matches Ok(s) ==> Self::spec_slice_mut_contents(&s) == Self::spec_contents(
                old(buffer),
            ),
    ;

    /// The items of a read-only mapping.
    fn obtain_slice(slice: &Self::SliceRepr) -> (r: Result<&[T], BufferError>)
        ensures
            r matches Ok(s) ==> s@ == Self::spec_slice_contents(slice),
    ;

    /// The items of a read-write mapping.
    fn obtain_slice_mut(slice: &mut Self::SliceMutRepr) -> (r: Result<&mut [T], BufferError>)
        ensures
            r matches Ok(s) ==> (*s)@ == Self::spec_slice_mut_contents(old(slice)),
    ;
}


/// Types that can be stored in a uniform block, i.e. passed to shaders in a buffer.
pub trait UniformBlock {}

impl UniformBlock for u8 {}

impl UniformBlock for u16 {}

impl UniformBlock for u32 {}

impl UniformBlock for i8 {}

impl UniformBlock for i16 {}

impl UniformBlock for i32 {}

impl UniformBlock for bool {}

impl UniformBlock for [u8; 2] {}

impl UniformBlock for [u16; 2] {}

impl UniformBlock for [u32; 2] {}

impl UniformBlock for [i8; 2] {}

impl UniformBlock for [i16; 2] {}

impl UniformBlock for [i32; 2] {}

impl UniformBlock for [bool; 2] {}

impl UniformBlock for [u8; 3] {}

impl UniformBlock for [u16; 3] {}

impl UniformBlock for [u32; 3] {}

impl UniformBlock for [i8; 3] {}

impl UniformBlock for [i16; 3] {}

impl UniformBlock for [i32; 3] {}

impl UniformBlock for [bool; 3] {}

impl UniformBlock for [u8; 4] {}

impl UniformBlock for [u16; 4] {}

impl UniformBlock for [u32; 4] {}

impl UniformBlock for [i8; 4] {}

impl UniformBlock for [i16; 4] {}

impl UniformBlock for [i32; 4] {}

impl UniformBlock for [bool; 4] {}

impl<T> UniformBlock for [T] where T: UniformBlock {}

impl<A, B> UniformBlock for (A, B) where A: UniformBlock, B: UniformBlock {}

impl<A, B, C> UniformBlock for (A, B, C) where A: UniformBlock, B: UniformBlock, C: UniformBlock {}

impl<A, B, C, D> UniformBlock for (A, B, C, D) where A: UniformBlock, B: UniformBlock, C: UniformBlock, D: UniformBlock {}

impl<A, B, C, D, E> UniformBlock for (A, B, C, D, E) where A: UniformBlock, B: UniformBlock, C: UniformBlock, D: UniformBlock, E: UniformBlock {}

impl<A, B, C, D, E, F> UniformBlock for (A, B, C, D, E, F) where A: UniformBlock, B: UniformBlock, C: UniformBlock, D: UniformBlock, E: UniformBlock, F: UniformBlock {}

impl<A, B, C, D, E, F, G> UniformBlock for (A, B, C, D, E, F, G) where A: UniformBlock, B: UniformBlock, C: UniformBlock, D: UniformBlock, E: UniformBlock, F: UniformBlock, G: UniformBlock {}

impl<A, B, C, D, E, F, G, H> UniformBlock for (A, B, C, D, E, F, G, H) where A: UniformBlock, B: UniformBlock, C: UniformBlock, D: UniformBlock, E: UniformBlock, F: UniformBlock, G: UniformBlock, H: UniformBlock {}

impl<A, B, C, D, E, F, G, H, I> UniformBlock for (A, B, C, D, E, F, G, H, I) where A: UniformBlock, B: UniformBlock, C: UniformBlock, D: UniformBlock, E: UniformBlock, F: UniformBlock, G: UniformBlock, H: UniformBlock, I: UniformBlock {}

impl<A, B, C, D, E, F, G, H, I, J> UniformBlock for (A, B, C, D, E, F, G, H, I, J) where A: UniformBlock, B: UniformBlock, C: UniformBlock, D: UniformBlock, E: UniformBlock, F: UniformBlock, G: UniformBlock, H: UniformBlock, I: UniformBlock, J: UniformBlock {}

} // verus!
