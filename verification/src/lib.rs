//! Arrays of a columnar in-memory format: fixed-size primitive values,
//! bit-packed booleans and nulls, each with or without a validity bitmap.
//!
//! Whether an array can hold nulls is a flag in its type. The flag selects
//! the storage: plain storage where it is off, plain storage paired with a
//! validity bitmap where it is on. Every storage is a [`Collection`], and
//! the arrays take all they do from the storage that the flag selects.

pub mod array;
pub mod bitmap;
pub mod bits;
pub mod buffer;
pub mod collection;
pub mod fixed_size;
pub mod nullable;
pub mod validity;

pub use array::boolean::BooleanArray;
pub use array::fixed_size_primitive::FixedSizePrimitiveArray;
pub use array::null::{NullArray, Nulls, Unit};
pub use array::Array;
pub use bitmap::{Bitmap, BitmapRef, BitmapRefMut, ValidityBitmap};
pub use buffer::{BufferRef, BufferRefMut, VecBuffer};
pub use collection::Collection;
pub use fixed_size::FixedSize;
pub use nullable::Nullable;
pub use validity::Validity;
