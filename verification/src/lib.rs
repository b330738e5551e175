//! By-value slicing for contiguous views.
//!
//! Range-indexing syntax (`view[start..end]`, `view[start..]`, `view[..end]`)
//! is expressed here as trait methods that consume the view and return a new
//! view of the same family, plus an in-place truncation. Generic code can
//! bound itself by these capabilities and chain slicing operations without
//! being tied to a concrete container type.

mod sealed;

pub mod index;

pub mod laws;

pub mod traits;

pub use crate::index::Index;

pub use crate::traits::{AsSlice, IntoSlice, IntoSliceFrom, IntoSliceTo, Truncate, truncated};
