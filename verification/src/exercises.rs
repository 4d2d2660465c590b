//! The exercises, one module each, and the closed set of those that can be
//! launched.

use crate::runner::Runner;
use vstd::prelude::*;

pub mod camera;
pub mod creating_a_window;
pub mod hello_triangle;
pub mod hello_window;
pub mod shader;
pub mod textures;

verus! {

/// An exercise that can be launched. Each variant stands for the exercise
/// type of the same name and is identified as that type is.
#[derive(Clone, Copy, Debug, PartialEq, Eq, Structural)]
pub enum Exercise {
    CreatingAWindow,
    HelloWindow,
    HelloTriangle,
    Shader,
    Textures,
}

impl Runner for Exercise {
    open spec fn spec_chapter(&self) -> i32 {
        match self {
            Exercise::CreatingAWindow => creating_a_window::CreatingAWindow.spec_chapter(),
            Exercise::HelloWindow => hello_window::HelloWindow.spec_chapter(),
            Exercise::HelloTriangle => hello_triangle::HelloTriangle.spec_chapter(),
            Exercise::Shader => shader::Shader.spec_chapter(),
            Exercise::Textures => textures::Textures.spec_chapter(),
        }
    }

    open spec fn spec_section(&self) -> i32 {
        match self {
            Exercise::CreatingAWindow => creating_a_window::CreatingAWindow.spec_section(),
            Exercise::HelloWindow => hello_window::HelloWindow.spec_section(),
            Exercise::HelloTriangle => hello_triangle::HelloTriangle.spec_section(),
            Exercise::Shader => shader::Shader.spec_section(),
            Exercise::Textures => textures::Textures.spec_section(),
        }
    }

    open spec fn spec_name(&self) -> Seq<char> {
        match self {
            Exercise::CreatingAWindow => creating_a_window::CreatingAWindow.spec_name(),
            Exercise::HelloWindow => hello_window::HelloWindow.spec_name(),
            Exercise::HelloTriangle => hello_triangle::HelloTriangle.spec_name(),
            Exercise::Shader => shader::Shader.spec_name(),
            Exercise::Textures => textures::Textures.spec_name(),
        }
    }

    fn chapter(&self) -> (r: i32) {
        match self {
            Exercise::CreatingAWindow => creating_a_window::CreatingAWindow.chapter(),
            Exercise::HelloWindow => hello_window::HelloWindow.chapter(),
            Exercise::HelloTriangle => hello_triangle::HelloTriangle.chapter(),
            Exercise::Shader => shader::Shader.chapter(),
            Exercise::Textures => textures::Textures.chapter(),
        }
    }

    fn section(&self) -> (r: i32) {
        match self {
            Exercise::CreatingAWindow => creating_a_window::CreatingAWindow.section(),
            Exercise::HelloWindow => hello_window::HelloWindow.section(),
            Exercise::HelloTriangle => hello_triangle::HelloTriangle.section(),
            Exercise::Shader => shader::Shader.section(),
            Exercise::Textures => textures::Textures.section(),
        }
    }

    fn name(&self) -> (r: &'static str) {
        match self {
            Exercise::CreatingAWindow => creating_a_window::CreatingAWindow.name(),
            Exercise::HelloWindow => hello_window::HelloWindow.name(),
            Exercise::HelloTriangle => hello_triangle::HelloTriangle.name(),
            Exercise::Shader => shader::Shader.name(),
            Exercise::Textures => textures::Textures.name(),
        }
    }
}

} // verus!
