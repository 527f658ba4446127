//! Settlement core of a two-token constant-product market maker.
use vstd::prelude::*;

pub mod contract;
pub mod error;
pub mod message;
pub mod token;
pub mod util;

verus! {

} // verus!
