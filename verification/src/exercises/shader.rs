//! The exercise that draws a triangle with a colour per vertex.

use crate::runner::Runner;
use vstd::prelude::*;

verus! {

/// The exercise that draws a triangle with a colour per vertex.
pub struct Shader;

impl Runner for Shader {
    open spec fn spec_chapter(&self) -> i32 {
        1
    }

    open spec fn spec_section(&self) -> i32 {
        4
    }

    open spec fn spec_name(&self) -> Seq<char> {
        "shader"@
    }

    fn chapter(&self) -> (r: i32) {
        1
    }

    fn section(&self) -> (r: i32) {
        4
    }

    fn name(&self) -> (r: &'static str) {
        "shader"
    }
}

} // verus!
