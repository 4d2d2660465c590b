//! The exercise that draws a textured rectangle.

use crate::runner::Runner;
use vstd::prelude::*;

verus! {

/// The exercise that draws a textured rectangle.
pub struct Textures;

impl Runner for Textures {
    open spec fn spec_chapter(&self) -> i32 {
        1
    }

    open spec fn spec_section(&self) -> i32 {
        5
    }

    open spec fn spec_name(&self) -> Seq<char> {
        "textures"@
    }

    fn chapter(&self) -> (r: i32) {
        1
    }

    fn section(&self) -> (r: i32) {
        5
    }

    fn name(&self) -> (r: &'static str) {
        "textures"
    }
}

} // verus!
