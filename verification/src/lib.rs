//! Verified bookkeeping for an orbit camera: which of a frame's inputs take
//! effect, and what the rig stores once they have.

pub mod controller;
pub mod input;
pub mod scene;
pub mod single;
