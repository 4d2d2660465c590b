//! What identifies a runnable exercise.

use vstd::prelude::*;

verus! {

/// The properties by which an exercise is listed and looked up: a chapter
/// and section number, and a name.
pub trait Runner {
    /// The chapter number of this exercise.
    spec fn spec_chapter(&self) -> i32;

    /// The section number of this exercise.
    spec fn spec_section(&self) -> i32;

    /// The characters of the name of this exercise.
    spec fn spec_name(&self) -> Seq<char>;

    /// The chapter number of this exercise.
    fn chapter(&self) -> (r: i32)
        ensures
            r == self.spec_chapter(),
    ;

    /// The section number of this exercise.
    fn section(&self) -> (r: i32)
        ensures
            r == self.spec_section(),
    ;

    /// The name of this exercise.
    fn name(&self) -> (r: &'static str)
        ensures
            r@ == self.spec_name(),
    ;
}

} // verus!
