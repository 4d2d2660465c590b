//! The exercise that opens an empty window.

use crate::runner::Runner;
use vstd::prelude::*;

verus! {

/// The exercise that opens an empty window.
pub struct CreatingAWindow;

impl Runner for CreatingAWindow {
    open spec fn spec_chapter(&self) -> i32 {
        1
    }

    open spec fn spec_section(&self) -> i32 {
        1
    }

    open spec fn spec_name(&self) -> Seq<char> {
        "creating a window"@
    }

    fn chapter(&self) -> (r: i32) {
        1
    }

    fn section(&self) -> (r: i32) {
        1
    }

    fn name(&self) -> (r: &'static str) {
        "creating a window"
    }
}

} // verus!
