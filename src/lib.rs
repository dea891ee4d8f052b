use vstd::prelude::*;

pub mod data;
pub mod sampler;
pub mod table;
pub mod melody;
pub mod generator;
pub mod player;

verus! {

} // verus!
