pub mod checkers;
pub mod game;
pub mod laws;

use vstd::prelude::*;

verus! {

} // verus!
