//! Graphics buffers.
//!
//! A GPU buffer is a typed continuous region of data. It has a size and can hold several elements.
//!
//! Once the buffer is created, you can perform several operations on it:
//!
//! - Writing to it.
//! - Reading from it.
//! - Passing it around as uniforms.
//! - Etc.
//!
//! # Parametricity
//!
//! The [`Buffer`] type is parametric over the backend type and item type. For the backend type,
//! the [`backend::buffer::Buffer`] trait must be implemented to be able to use it with the buffer.
//!
//! # Buffer creation, reading, writing and getting information
//!
//! Buffers are created with the [`Buffer::new`], [`Buffer::from_vec`] and [`Buffer::repeat`]
//! methods. All these methods are fallible — they might fail with [`BufferError`].
//!
//! Once you have a [`Buffer`], you can read from it and write to it.
//! Writing is done with [`Buffer::set`] — which allows to set a value at a given index in the
//! buffer, [`Buffer::write_whole`] — which writes a whole slice to the buffer — and
//! [`Buffer::clear`] — which sets the same value to all items in a buffer. Reading is performed
//! with [`Buffer::at`] — which retrieves the item at a given index and [`Buffer::whole`] which
//! retrieves the whole buffer by copying it to a `Vec<T>`.
//!
//! It’s possible to get data via several methods, such as [`Buffer::len`] to get the number of
//! items in the buffer.
//!
//! # Buffer slicing
//!
//! Buffer slicing is the act of getting a [`BufferSlice`] out of a [`Buffer`]. That operation
//! allows to _map_ a GPU region onto a CPU one and access the underlying data as a regular slice.
//! Two methods exist to slice a buffer
//!
//! - Read-only: [`Buffer::slice`].
//! - Mutably: [`Buffer::slice_mut`].
//!
//! Both methods take a mutable reference on a buffer because even in the read-only case, exclusive
//! borrowing must be enforced.
//!
//! [`backend::buffer::Buffer`]: crate::backend::buffer::Buffer
use std::marker::PhantomData;
use vstd::prelude::*;
use crate::backend::buffer::{Buffer as BufferBackend, BufferSlice as BufferSliceBackend};
use crate::context::GraphicsContext;
use crate::text::{decimal, push_decimal};

verus! {

/// A GPU buffer.
///
/// # Parametricity
///
/// - `B` is the backend type. It must implement [`backend::buffer::Buffer`].
/// -`T` is the type of stored items. No restriction are currently enforced on that type, besides
///   the fact it must be [`Sized`].
///
/// [`backend::buffer::Buffer`]: crate::backend::buffer::Buffer
pub struct Buffer<B, T> where B: ?Sized + BufferBackend<T>, T: Copy {
    pub(crate) repr: B::BufferRepr,
    pub(crate) _t: PhantomData<T>,
}

impl<B, T> View for Buffer<B, T> where B: ?Sized + BufferBackend<T>, T: Copy {
    type V = Seq<T>;

    /// The items the buffer holds.
    closed spec fn view(&self) -> Seq<T> {
        B::spec_contents(&self.repr)
    }
}

impl<B, T> Buffer<B, T> where B: ?Sized + BufferBackend<T>, T: Copy {
    /// Wrap a backend representation; the buffer holds what the representation holds.
    pub(crate) fn from_repr(repr: B::BufferRepr) -> (b: Self)
        ensures
            b@ == B::spec_contents(&repr),
    {
        Buffer { repr, _t: PhantomData }
    }

    /// Create a new buffer with a given length
    ///
    /// The buffer will be created on the GPU with a contiguous region large enough to fit `len`
    /// items.
    ///
    /// The stored item must be [`Default`], as this function will initialize the whole buffer
    /// with the default value.
    ///
    /// # Errors
    ///
    /// That function can fail creating the buffer for various reasons, in which case it returns
    /// `Err(BufferError::_)`. Feel free to read the documentation of [`BufferError`] for further
    /// information.
    ///
    /// # Notes
    ///
    /// You might be interested in the [`GraphicsContext::new_buffer`] function instead, which
    /// is the exact same function, but benefits from more type inference (based on `&mut C`).
    pub fn new<C>(ctx: &mut C, len: usize) -> (r: Result<Self, BufferError>) where
        C: GraphicsContext<Backend = B>,
        T: Default,
        ensures
            r matches Ok(b) ==> b@.len() == len && forall|i: int|
                0 <= i < len ==> call_ensures(T::default, (), #[trigger] b@[i]),
    {
        let repr = ctx.backend().new_buffer(len)?;
        Ok(Buffer { repr, _t: PhantomData })
    }

    /// Create a new buffer from a slice of items.
    ///
    /// The buffer will be created with a length equal to the length of the input size, and items
    /// will be copied from the slice inside the contiguous GPU region.
    ///
    /// # Errors
    ///
    /// That function can fail creating the buffer for various reasons, in which case it returns
    /// `Err(BufferError::_)`. Feel free to read the documentation of [`BufferError`] for further
    /// information.
    ///
    /// # Notes
    ///
    /// You might be interested in the [`GraphicsContext::new_buffer_from_vec`] function instead,
    /// which is the exact same function, but benefits from more type inference (based on `&mut C`).
    pub fn from_vec<C, X>(ctx: &mut C, vec: X) -> (r: Result<Self, BufferError>) where
        C: GraphicsContext<Backend = B>,
        X: Into<Vec<T>>,
        ensures
            r matches Ok(b) ==> exists|v: Vec<T>|
                call_ensures(X::into, (vec,), v) && #[trigger] b@ == v@,
    {
        let v: Vec<T> = vec.into();
        let repr = ctx.backend().from_vec(v)?;
        Ok(Buffer { repr, _t: PhantomData })
    }

    /// Create a new buffer by repeating `len` times a `value`.
    ///
    /// The buffer will be comprised of `len` items, all equal to `value`.
    ///
    /// # Errors
    ///
    /// That function can fail creating the buffer for various reasons, in which case it returns
    /// `Err(BufferError::_)`. Feel free to read the documentation of [`BufferError`] for further
    /// information.
    ///
    /// # Notes
    ///
    /// You might be interested in the [`GraphicsContext::new_buffer_repeating`] function instead,
    /// which is the exact same function, but benefits from more type inference (based on `&mut C`).
    pub fn repeat<C>(ctx: &mut C, len: usize, value: T) -> (r: Result<Self, BufferError>) where
        C: GraphicsContext<Backend = B>,
        ensures
            r matches Ok(b) ==> b@ == Seq::new(len as nat, |i: int| value),
    {
        let repr = ctx.backend().repeat(len, value)?;
        Ok(Buffer { repr, _t: PhantomData })
    }

    /// Get the item at the given index.
    pub fn at(&self, i: usize) -> (r: Option<T>)
        ensures
            r == spec_at(self@, i),
    {
        B::at(&self.repr, i)
    }

    /// Get the whole content of the buffer and store it inside a [`Vec`].
    pub fn whole(&self) -> (r: Vec<T>)
        ensures
            r@ == self@,
    {
        B::whole(&self.repr)
    }

    /// Set a value `x` at index `i` in the buffer.
    ///
    /// # Errors
    ///
    /// That function returns [`BufferError::Overflow`] if `i` is bigger than the length of the
    /// buffer. Other errors are possible; please consider reading the documentation of
    /// [`BufferError`] for further information.
    pub fn set(&mut self, i: usize, x: T) -> (r: Result<(), BufferError>)
        ensures
            i >= old(self)@.len() ==> r == Err::<(), BufferError>(
                BufferError::Overflow { index: i, buffer_len: old(self)@.len() as usize },
            ),
            r is Ok ==> i < old(self)@.len() && final(self)@ == old(self)@.update(i as int, x),
            r is Err ==> final(self)@ == old(self)@,
    {
        B::set(&mut self.repr, i, x)
    }

    /// Set the content of the buffer by using a slice that will be copied at the buffer’s memory
    /// location.
    ///
    /// # Errors
    ///
    /// [`BufferError::TooFewValues`] is returned if the input slice has less items than the buffer.
    ///
    /// [`BufferError::TooManyValues`] is returned if the input slice has more items than the buffer.
    pub fn write_whole(&mut self, values: &[T]) -> (r: Result<(), BufferError>)
        ensures
            values@.len() < old(self)@.len() ==> r == Err::<(), BufferError>(
                BufferError::TooFewValues {
                    provided_len: values@.len() as usize,
                    buffer_len: old(self)@.len() as usize,
                },
            ),
            values@.len() > old(self)@.len() ==> r == Err::<(), BufferError>(
                BufferError::TooManyValues {
                    provided_len: values@.len() as usize,
                    buffer_len: old(self)@.len() as usize,
                },
            ),
            r is Ok ==> final(self)@ == values@ && values@.len() == old(self)@.len(),
            r is Err ==> final(self)@ == old(self)@,
    {
        B::write_whole(&mut self.repr, values)
    }

    /// Clear the content of the buffer by copying the same value everywhere.
    pub fn clear(&mut self, x: T) -> (r: Result<(), BufferError>)
        ensures
            r is Ok ==> final(self)@ == Seq::new(old(self)@.len(), |i: int| x),
            r is Err ==> final(self)@ == old(self)@,
    {
        B::clear(&mut self.repr, x)
    }

    /// Return the length of the buffer (i.e. the number of elements).
    pub fn len(&self) -> (r: usize)
        ensures
            r == self@.len(),
    {
        B::len(&self.repr)
    }

    /// Check whether the buffer is empty (i.e. it has no elements).
    ///
    /// # Note
    ///
    /// Since right now, it is not possible to grow vectors, it is highly recommended not to create
    /// empty buffers. That function is there only for convenience and demonstration; you shouldn’t
    /// really have to use it.
    pub fn is_empty(&self) -> (r: bool)
        ensures
            r == (self@.len() == 0),
    {
        self.len() == 0
    }
}

impl<B, T> Buffer<B, T> where B: ?Sized + BufferSliceBackend<T>, T: Copy {
    /// Create a new [`BufferSlice`] from a buffer, allowing to get `&[T]` out of it.
    ///
    /// # Errors
    ///
    /// That function might fail and return a [`BufferError::MapFailed`].
    pub fn slice(&mut self) -> (r: Result<BufferSlice<'_, B, T>, BufferError>)
        ensures
            final(self)@ == old(self)@,
            r matches Ok(s) ==> s@ == old(self)@,
    {
        match B::slice_buffer(&self.repr) {
            Ok(slice) => Ok(BufferSlice { slice, _a: PhantomData }),
            Err(e) => Err(e),
        }
    }

    /// Create a new [`BufferSliceMut`] from a buffer, allowing to get `&mut [T]` out of it.
    ///
    /// # Errors
    ///
    /// That function might fail and return a [`BufferError::MapFailed`].
    pub fn slice_mut(&mut self) -> (r: Result<BufferSliceMut<'_, B, T>, BufferError>)
        ensures
            r matches Ok(s) ==> s@ == old(self)@,
    {
        match B::slice_buffer_mut(&mut self.repr) {
            Ok(slice) => Ok(BufferSliceMut { slice, _a: PhantomData }),
            Err(e) => Err(e),
        }
    }
}

/// The item at index `i` of the items `items`, if `i` is in bounds.
pub open spec fn spec_at<T>(items: Seq<T>, i: usize) -> Option<T> {
    if i < items.len() {
        Some(items[i as int])
    } else {
        None
    }
}

/// Reading an item back after a successful [`Buffer::set`] of it gives the written value, and
/// every other index reads as it did before.
pub proof fn law_at_after_set<T>(before: Seq<T>, i: usize, x: T, j: usize)
    requires
        i < before.len(),
    ensures
        spec_at(before.update(i as int, x), i) == Some(x),
        j != i ==> spec_at(before.update(i as int, x), j) == spec_at(before, j),
        before.update(i as int, x).len() == before.len(),
{
}

/// After a successful [`Buffer::clear`] with `x`, every index in bounds reads `x`, and the buffer
/// keeps its length.
pub proof fn law_at_after_clear<T>(before: Seq<T>, x: T, j: usize)
    ensures
        Seq::new(before.len(), |k: int| x).len() == before.len(),
        j < before.len() ==> spec_at(Seq::new(before.len(), |k: int| x), j) == Some(x),
        j >= before.len() ==> spec_at(Seq::new(before.len(), |k: int| x), j) is None,
{
}

/// A buffer slice, allowing to get `&[T]`.
pub struct BufferSlice<'a, B, T> where B: ?Sized + BufferSliceBackend<T>, T: Copy {
    slice: B::SliceRepr,
    _a: PhantomData<&'a mut ()>,
}

impl<'a, B, T> View for BufferSlice<'a, B, T> where B: ?Sized + BufferSliceBackend<T>, T: Copy {
    type V = Seq<T>;

    /// The items the mapping shows.
    closed spec fn view(&self) -> Seq<T> {
        B::spec_slice_contents(&self.slice)
    }
}

impl<'a, B, T> BufferSlice<'a, B, T> where B: ?Sized + BufferSliceBackend<T>, T: Copy {
    /// Obtain a `&[T]`.
    ///
    /// # Errors
    ///
    /// It is possible that obtaining a slice is not possible. In that case,
    /// [`BufferError::MapFailed`] is returned.
    pub fn as_slice(&self) -> (r: Result<&[T], BufferError>)
        ensures
            r matches Ok(s) ==> s@ == self@,
    {
        B::obtain_slice(&self.slice)
    }
}

/// A buffer mutable slice, allowing to get `&mut [T]`.
pub struct BufferSliceMut<'a, B, T> where B: ?Sized + BufferSliceBackend<T>, T: Copy {
    slice: B::SliceMutRepr,
    _a: PhantomData<&'a mut ()>,
}

impl<'a, B, T> View for BufferSliceMut<'a, B, T> where B: ?Sized + BufferSliceBackend<T>, T: Copy {
    type V = Seq<T>;

    /// The items the mapping shows.
    closed spec fn view(&self) -> Seq<T> {
        B::spec_slice_mut_contents(&self.slice)
    }
}

impl<'a, B, T> BufferSliceMut<'a, B, T> where B: ?Sized + BufferSliceBackend<T>, T: Copy {
    /// Obtain a `&mut [T]`.
    pub fn as_slice_mut(&mut self) -> (r: Result<&mut [T], BufferError>)
        ensures
            r matches Ok(s) ==> (*s)@ == old(self)@,
    {
        B::obtain_slice_mut(&mut self.slice)
    }
}


/// Buffer errors.
///
/// Please keep in mind that this `enum` is _non exhaustive_; you will not be able to exhaustively
/// pattern-match against it.
#[non_exhaustive]
#[derive(Debug, PartialEq, Eq, Structural)]
pub enum BufferError {
    /// Cannot create buffer.
    CannotCreate,
    /// Overflow when setting a value with a specific index.
    ///
    /// Contains the index and the size of the buffer.
    Overflow {
        /// Tried index.
        index: usize,
        /// Actuall buffer length.
        buffer_len: usize,
    },
    /// Too few values were passed to fill a buffer.
    ///
    /// Contains the number of passed value and the size of the buffer.
    TooFewValues {
        /// Length of the provided data.
        provided_len: usize,
        /// Actual buffer length.
        buffer_len: usize,
    },
    /// Too many values were passed to fill a buffer.
    ///
    /// Contains the number of passed value and the size of the buffer.
    TooManyValues {
        /// Length of the provided data.
        provided_len: usize,
        /// Actual buffer length.
        buffer_len: usize,
    },
    /// Buffer mapping failed.
    MapFailed,
}

impl BufferError {
    /// Cannot create [`Buffer`].
    pub fn cannot_create() -> (r: Self)
        ensures
            r == BufferError::CannotCreate,
    {
        BufferError::CannotCreate
    }

    /// Overflow when setting a value with a specific index.
    pub fn overflow(index: usize, buffer_len: usize) -> (r: Self)
        ensures
            r == (BufferError::Overflow { index, buffer_len }),
    {
        BufferError::Overflow { index, buffer_len }
    }

    /// Too few values were passed to fill a buffer.
    pub fn too_few_values(provided_len: usize, buffer_len: usize) -> (r: Self)
        ensures
            r == (BufferError::TooFewValues { provided_len, buffer_len }),
    {
        BufferError::TooFewValues { provided_len, buffer_len }
    }

    /// Too many values were passed to fill a buffer.
    pub fn too_many_values(provided_len: usize, buffer_len: usize) -> (r: Self)
        ensures
            r == (BufferError::TooManyValues { provided_len, buffer_len }),
    {
        BufferError::TooManyValues { provided_len, buffer_len }
    }

    /// Buffer mapping failed.
    pub fn map_failed() -> (r: Self)
        ensures
            r == BufferError::MapFailed,
    {
        BufferError::MapFailed
    }

    /// The human-readable message of the error.
    pub open spec fn spec_text(self) -> Seq<char> {
        match self {
            BufferError::CannotCreate => "cannot create buffer"@,
            BufferError::Overflow { index, buffer_len } => "buffer overflow (index = "@ + decimal(
                index as nat,
            ) + ", size = "@ + decimal(buffer_len as nat) + ")"@,
            BufferError::TooFewValues { provided_len, buffer_len } =>
                "too few values passed to the buffer (nb = "@ + decimal(provided_len as nat)
                + ", size = "@ + decimal(buffer_len as nat) + ")"@,
            BufferError::TooManyValues { provided_len, buffer_len } =>
                "too many values passed to the buffer (nb = "@ + decimal(provided_len as nat)
                + ", size = "@ + decimal(buffer_len as nat) + ")"@,
            BufferError::MapFailed => "buffer mapping failed"@,
        }
    }

    /// The human-readable message of the error.
    pub fn to_string(&self) -> (r: String)
        ensures
            r@ == self.spec_text(),
    {
        match *self {
            BufferError::CannotCreate => String::from_str("cannot create buffer"),
            BufferError::Overflow { index, buffer_len } => {
                let mut s = String::from_str("buffer overflow (index = ");
                push_decimal(&mut s, index);
                s.append(", size = ");
                push_decimal(&mut s, buffer_len);
                s.append(")");
                s
            },
            BufferError::TooFewValues { provided_len, buffer_len } => {
                let mut s = String::from_str("too few values passed to the buffer (nb = ");
                push_decimal(&mut s, provided_len);
                s.append(", size = ");
                push_decimal(&mut s, buffer_len);
                s.append(")");
                s
            },
            BufferError::TooManyValues { provided_len, buffer_len } => {
                let mut s = String::from_str("too many values passed to the buffer (nb = ");
                push_decimal(&mut s, provided_len);
                s.append(", size = ");
                push_decimal(&mut s, buffer_len);
                s.append(")");
                s
            },
            BufferError::MapFailed => String::from_str("buffer mapping failed"),
        }
    }
}

} // verus!
