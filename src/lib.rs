use vstd::prelude::*;

pub mod sprite;
pub mod player;

verus! {

} // verus!
