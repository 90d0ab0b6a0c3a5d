//! Parallel initialization of fixed-length arrays.
//!
//! An array is filled by calling an initializer closure, or by draining an
//! indexed source of elements, across parallel workers: each array slot is
//! written exactly once, in no particular order, and the array is handed to
//! the caller only once every slot holds a value. The element type needs no
//! default, placeholder, or clone; parallel execution is delegated to rayon.

pub mod arrays;
pub mod buffer;
pub mod fill;

pub use arrays::IsParArray;
pub use buffer::slot_write;
pub use buffer::UninitBuffer;
pub use fill::from_iter;
pub use fill::par_array_init;
