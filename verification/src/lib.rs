//! Single-slot reference cells.
//!
//! A cell holds, at most, the numeric address of one externally owned value
//! at a time.  The slot begins uninitialized, becomes empty on first use, and
//! then cycles between empty and registered for the life of the cell.  Two
//! variants exist: [`GlobalRef`] publishes an address for shared, read-only
//! use, while [`GlobalMut`] publishes an address through which the holder may
//! also mutate.  The cell itself never dereferences an address: turning a
//! registered address back into a reference is an obligation of the caller,
//! kept outside this crate at a narrow, auditable boundary.

pub mod exclusive;
pub mod shared;
pub mod slot;

pub use exclusive::GlobalMut;
pub use shared::GlobalRef;
