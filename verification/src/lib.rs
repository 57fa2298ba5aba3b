//! A minimal manual-memory-ownership core: an allocation policy that routes
//! every request through one shim, an exclusively owning box over a single
//! heap value, and a model of how cleanup runs when a computation fails.

use vstd::prelude::*;

pub mod boxed;
pub mod shim;
pub mod unwind;

verus! {

pub use boxed::MyBox;
pub use boxed::RawHandle;

} // verus!
