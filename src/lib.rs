//! A typed builder for TikZ drawing commands.
//!
//! A picture is an ordered list of commands; a draw command wraps a path that is
//! grown left to right from points and the elements that extend them. Which
//! element may follow which is decided by the element types, so a path that
//! starts with an extending element cannot be written.
use vstd::prelude::*;

pub mod tikz;

verus! {

} // verus!
