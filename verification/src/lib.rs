//! Demo scenes for an OpenGL context, as values.
//!
//! There are three scenes: a triangle, a square whose colour pulses, and a
//! square with a picture on it. Each is built once, bound and drawn every
//! frame, and destroyed once, and owns the objects it has made in the
//! driver from the first of these to the last.
//!
//! This crate makes no graphics call itself. It computes the calls, and its
//! caller, who holds the current context, makes them:
//!
//! - [`gpu`] has the calls as values, and [`bindings`] says what a list of
//!   calls leaves bound;
//! - [`samples`] has the scenes: the script that builds each, and what a
//!   built scene does for a frame, for a snapshot and at its end;
//! - [`script`] and [`construction`] build a scene step by step, the caller
//!   answering each request, and give up cleanly when a file is missing or
//!   a shader does not compile;
//! - [`shaders`] and [`texture`] have the program and the texture of a
//!   scene, and [`jpeg`] tells which image files are not to be decoded;
//! - [`renderer`] holds the scene of a session, and [`gl_bootstrap`] the
//!   choices made while a context is set up.
//!
//! What is proved of all this stands next to it: that a scene owns exactly
//! what was made for it, that nothing is left behind when it is destroyed
//! or when its construction fails, that a frame leaves bound what was bound
//! before, and how the pulsing colour moves.
pub mod bindings;
pub mod construction;
pub mod error;
pub mod gl_bootstrap;
pub mod gpu;
pub mod jpeg;
pub mod renderer;
pub mod samples;
pub mod script;
pub mod shaders;
pub mod texture;
