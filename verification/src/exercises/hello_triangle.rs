//! The exercise that draws two triangles.

use crate::runner::Runner;
use vstd::prelude::*;

verus! {

/// The exercise that draws two triangles.
pub struct HelloTriangle;

impl Runner for HelloTriangle {
    open spec fn spec_chapter(&self) -> i32 {
        1
    }

    open spec fn spec_section(&self) -> i32 {
        3
    }

    open spec fn spec_name(&self) -> Seq<char> {
        "hello triangle"@
    }

    fn chapter(&self) -> (r: i32) {
        1
    }

    fn section(&self) -> (r: i32) {
        3
    }

    fn name(&self) -> (r: &'static str) {
        "hello triangle"
    }
}

} // verus!
