//! The exercise that clears a window to one colour.

use crate::runner::Runner;
use vstd::prelude::*;

verus! {

/// The exercise that clears a window to one colour.
pub struct HelloWindow;

impl Runner for HelloWindow {
    open spec fn spec_chapter(&self) -> i32 {
        1
    }

    open spec fn spec_section(&self) -> i32 {
        2
    }

    open spec fn spec_name(&self) -> Seq<char> {
        "hello window"@
    }

    fn chapter(&self) -> (r: i32) {
        1
    }

    fn section(&self) -> (r: i32) {
        2
    }

    fn name(&self) -> (r: &'static str) {
        "hello window"
    }
}

} // verus!
