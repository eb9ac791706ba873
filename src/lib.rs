use vstd::prelude::*;

pub mod executor;
pub mod handle;
pub mod laws;
pub mod limits;
pub mod types;

verus! {

} // verus!
