//! Verified core of a small set of OpenGL tutorial exercises.
//!
//! The exercises open a window and draw; that part needs a display and is
//! not here. What is here are the decisions around it, each with a contract
//! that states its result exactly: which exercise an argument of the command
//! line picks, how the exercises are listed, what an event or a key state of
//! a frame asks for, which way a camera movement points, and what is checked
//! and reported while a shader program is built.

pub mod camera;
pub mod common;
pub mod decimal;
pub mod exercises;
pub mod lister;
pub mod runner;
pub mod shader;
pub mod text;
