use lib::backend::buffer::{Buffer as BufferBackend, BufferSlice as BufferSliceBackend};
use lib::buffer::{Buffer, BufferError};
use lib::context::GraphicsContext;

/// The body of a specification function: those are read by the verifier, never run.
fn spec_only<T>() -> T {
    panic!("specification functions are only read by the verifier")
}

/// A backend that keeps buffers in host memory.
struct Memory {
    created: usize,
}

struct Ctx {
    memory: Memory,
}

impl GraphicsContext for Ctx {
    type Backend = Memory;

    fn spec_backend(&self) -> &Memory {
        &self.memory
    }

    fn backend(&mut self) -> &mut Memory {
        &mut self.memory
    }
}

impl<T: Copy> BufferBackend<T> for Memory {
    type BufferRepr = Vec<T>;

    fn spec_contents(_buffer: &Vec<T>) -> vstd::seq::Seq<T> {
        spec_only()
    }

    fn new_buffer(&mut self, len: usize) -> Result<Vec<T>, BufferError>
    where
        T: Default,
    {
        self.created += 1;
        Ok(vec![T::default(); len])
    }

    fn len(buffer: &Vec<T>) -> usize {
        buffer.len()
    }

    fn from_vec(&mut self, vec: Vec<T>) -> Result<Vec<T>, BufferError> {
        self.created += 1;
        Ok(vec)
    }

    fn repeat(&mut self, len: usize, value: T) -> Result<Vec<T>, BufferError> {
        self.created += 1;
        Ok(vec![value; len])
    }

    fn at(buffer: &Vec<T>, i: usize) -> Option<T> {
        buffer.get(i).copied()
    }

    fn whole(buffer: &Vec<T>) -> Vec<T> {
        buffer.clone()
    }

    fn set(buffer: &mut Vec<T>, i: usize, x: T) -> Result<(), BufferError> {
        if i >= buffer.len() {
            return Err(BufferError::Overflow {
                index: i,
                buffer_len: buffer.len(),
            });
        }
        buffer[i] = x;
        Ok(())
    }

    fn write_whole(buffer: &mut Vec<T>, values: &[T]) -> Result<(), BufferError> {
        if values.len() < buffer.len() {
            return Err(BufferError::TooFewValues {
                provided_len: values.len(),
                buffer_len: buffer.len(),
            });
        }
        if values.len() > buffer.len() {
            return Err(BufferError::TooManyValues {
                provided_len: values.len(),
                buffer_len: buffer.len(),
            });
        }
        buffer.copy_from_slice(values);
        Ok(())
    }

    fn clear(buffer: &mut Vec<T>, x: T) -> Result<(), BufferError> {
        for item in buffer.iter_mut() {
            *item = x;
        }
        Ok(())
    }
}

impl<T: Copy> BufferSliceBackend<T> for Memory {
    type SliceRepr = Vec<T>;
    type SliceMutRepr = Vec<T>;

    fn spec_slice_contents(_slice: &Vec<T>) -> vstd::seq::Seq<T> {
        spec_only()
    }

    fn spec_slice_mut_contents(_slice: &Vec<T>) -> vstd::seq::Seq<T> {
        spec_only()
    }

    fn slice_buffer(buffer: &Vec<T>) -> Result<Vec<T>, BufferError> {
        Ok(buffer.clone())
    }

    fn slice_buffer_mut(buffer: &mut Vec<T>) -> Result<Vec<T>, BufferError> {
        Ok(buffer.clone())
    }

    fn obtain_slice(slice: &Vec<T>) -> Result<&[T], BufferError> {
        Ok(slice.as_slice())
    }

    fn obtain_slice_mut(slice: &mut Vec<T>) -> Result<&mut [T], BufferError> {
        Ok(slice.as_mut_slice())
    }
}

fn ctx() -> Ctx {
    Ctx {
        memory: Memory { created: 0 },
    }
}

#[test]
fn new_buffer_holds_default_items() {
    let mut ctx = ctx();
    let buffer: Buffer<Memory, u32> = Buffer::new(&mut ctx, 4).unwrap();
    assert_eq!(buffer.len(), 4);
    assert!(!buffer.is_empty());
    assert_eq!(buffer.whole(), vec![0, 0, 0, 0]);
    assert_eq!(ctx.memory.created, 1);
}

#[test]
fn empty_buffer_is_empty() {
    let mut ctx = ctx();
    let buffer: Buffer<Memory, u8> = ctx.new_buffer(0).unwrap();
    assert!(buffer.is_empty());
    assert_eq!(buffer.len(), 0);
    assert_eq!(buffer.at(0), None);
}

#[test]
fn from_vec_keeps_items_in_order() {
    let mut ctx = ctx();
    let buffer = Buffer::from_vec(&mut ctx, vec![3u16, 1, 4, 1, 5]).unwrap();
    assert_eq!(buffer.whole(), vec![3, 1, 4, 1, 5]);
    assert_eq!(buffer.at(2), Some(4));
    assert_eq!(buffer.at(5), None);
    let other = ctx.new_buffer_from_vec(vec![9i8, 8]).unwrap();
    assert_eq!(other.whole(), vec![9, 8]);
}

#[test]
fn repeat_copies_the_value() {
    let mut ctx = ctx();
    let buffer = Buffer::repeat(&mut ctx, 3, 7u8).unwrap();
    assert_eq!(buffer.whole(), vec![7, 7, 7]);
    let other = ctx.new_buffer_repeating(2, true).unwrap();
    assert_eq!(other.whole(), vec![true, true]);
}

#[test]
fn set_then_at_reads_the_value_back() {
    let mut ctx = ctx();
    let mut buffer = Buffer::from_vec(&mut ctx, vec![1u32, 2, 3]).unwrap();
    assert_eq!(buffer.set(1, 20), Ok(()));
    assert_eq!(buffer.at(1), Some(20));
    assert_eq!(buffer.at(0), Some(1));
    assert_eq!(buffer.at(2), Some(3));
    assert_eq!(buffer.len(), 3);
}

#[test]
fn set_out_of_bounds_overflows() {
    let mut ctx = ctx();
    let mut buffer = Buffer::from_vec(&mut ctx, vec![1u32, 2, 3]).unwrap();
    assert_eq!(
        buffer.set(3, 0),
        Err(BufferError::Overflow {
            index: 3,
            buffer_len: 3
        })
    );
    assert_eq!(buffer.whole(), vec![1, 2, 3]);
}

#[test]
fn write_whole_needs_exactly_as_many_values() {
    let mut ctx = ctx();
    let mut buffer = Buffer::from_vec(&mut ctx, vec![0u8; 3]).unwrap();
    assert_eq!(
        buffer.write_whole(&[1, 2]),
        Err(BufferError::TooFewValues {
            provided_len: 2,
            buffer_len: 3
        })
    );
    assert_eq!(
        buffer.write_whole(&[1, 2, 3, 4]),
        Err(BufferError::TooManyValues {
            provided_len: 4,
            buffer_len: 3
        })
    );
    assert_eq!(buffer.write_whole(&[4, 5, 6]), Ok(()));
    assert_eq!(buffer.whole(), vec![4, 5, 6]);
}

#[test]
fn clear_sets_every_item() {
    let mut ctx = ctx();
    let mut buffer = Buffer::from_vec(&mut ctx, vec![1i32, 2, 3, 4]).unwrap();
    assert_eq!(buffer.clear(-1), Ok(()));
    assert_eq!(buffer.whole(), vec![-1, -1, -1, -1]);
    assert_eq!(buffer.len(), 4);
}

#[test]
fn slice_shows_the_items() {
    let mut ctx = ctx();
    let mut buffer = Buffer::from_vec(&mut ctx, vec![5u8, 6]).unwrap();
    {
        let slice = buffer.slice().unwrap();
        assert_eq!(slice.as_slice().unwrap(), &[5, 6]);
    }
    let mut slice = buffer.slice_mut().unwrap();
    assert_eq!(slice.as_slice_mut().unwrap(), &mut [5, 6]);
}

#[test]
fn buffer_error_texts() {
    assert_eq!(BufferError::cannot_create().to_string(), "cannot create buffer");
    assert_eq!(
        BufferError::overflow(7, 3).to_string(),
        "buffer overflow (index = 7, size = 3)"
    );
    assert_eq!(
        BufferError::too_few_values(1, 10).to_string(),
        "too few values passed to the buffer (nb = 1, size = 10)"
    );
    assert_eq!(
        BufferError::too_many_values(12, 0).to_string(),
        "too many values passed to the buffer (nb = 12, size = 0)"
    );
    assert_eq!(BufferError::map_failed().to_string(), "buffer mapping failed");
}

#[test]
fn buffer_error_constructors() {
    assert_eq!(BufferError::cannot_create(), BufferError::CannotCreate);
    assert_eq!(
        BufferError::overflow(1, 2),
        BufferError::Overflow {
            index: 1,
            buffer_len: 2
        }
    );
    assert_eq!(
        BufferError::too_few_values(1, 2),
        BufferError::TooFewValues {
            provided_len: 1,
            buffer_len: 2
        }
    );
    assert_eq!(
        BufferError::too_many_values(3, 2),
        BufferError::TooManyValues {
            provided_len: 3,
            buffer_len: 2
        }
    );
    assert_eq!(BufferError::map_failed(), BufferError::MapFailed);
}
