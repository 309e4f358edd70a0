//! Core of a live shader editor: the per-frame uniform values, the
//! composition of the shader text, the life cycle of the active program and
//! the order of the steps of one frame, each with a contract that Verus proves.

pub mod clock;
pub mod events;
pub mod frame;
pub mod geometry;
pub mod pointer;
pub mod program;
pub mod session;
pub mod source;
pub mod startup;
pub mod uniforms;
