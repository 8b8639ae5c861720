//! Copy-on-write sequences and text.
//!
//! A [`CowVec`] holds a sequence that is either borrowed from a slice or
//! owned as a buffer, and reads the same way in both cases; a [`CowStr`]
//! does the same for text. A copy is made only when an owned buffer is
//! asked for and the container does not have one.

pub mod cow_str;
pub mod cow_vec;
pub mod elements;
pub mod text;

pub use cow_str::CowStr;
pub use cow_vec::CowVec;
