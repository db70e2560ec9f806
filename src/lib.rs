//! Verified core of an N-body viewer: the density grid behind the terminal
//! view and its text rendering, the host copy of the vertex buffer, and the
//! decisions of the run loop (input commands, render outcomes, run states).
pub mod control;
pub mod grid;
pub mod text;
pub mod vertex;
