//! The commands that a picture can hold.
use vstd::prelude::*;

pub mod draw;

verus! {

} // verus!
