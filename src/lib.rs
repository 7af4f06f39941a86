use vstd::prelude::*;

pub mod field;
pub mod game;
pub mod mino;
pub mod render;

verus! {

} // verus!
