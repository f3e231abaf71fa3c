//! Reference-counted cells with unrestricted shared mutability.
//!
//! An [`Arena`] owns the shared cells. A handle ([`RcMut`], [`ArcMut`]) names
//! one cell and holds one share of its count. Every handle of a cell may read
//! and write the cell's value; the cell is freed, and its value handed back,
//! when its last handle is destroyed.
//!
//! Nothing is checked at run time. What a caller must uphold (the handle's
//! cell is still live, the count has room for one more) is the `requires` of
//! each operation.

pub mod model;
pub mod cell;
pub mod arena;
pub mod local;
pub mod shared;
pub mod laws;

pub use crate::arena::Arena;
pub use crate::cell::Counted;
pub use crate::local::RcMut;
pub use crate::shared::ArcMut;
