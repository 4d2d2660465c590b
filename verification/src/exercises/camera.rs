//! The exercise that flies a camera through a field of cubes.

use crate::runner::Runner;
use vstd::prelude::*;

verus! {

/// The exercise that flies a camera through a field of cubes.
pub struct Camera;

impl Runner for Camera {
    open spec fn spec_chapter(&self) -> i32 {
        1
    }

    open spec fn spec_section(&self) -> i32 {
        8
    }

    open spec fn spec_name(&self) -> Seq<char> {
        "camera"@
    }

    fn chapter(&self) -> (r: i32) {
        1
    }

    fn section(&self) -> (r: i32) {
        8
    }

    fn name(&self) -> (r: &'static str) {
        "camera"
    }
}

} // verus!
