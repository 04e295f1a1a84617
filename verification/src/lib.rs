//! A scene that is torn down and rebuilt on a fixed period, shown by two
//! cameras: one draws to the screen, the other into an off-screen target that
//! a corner preview samples.

pub mod controller;
pub mod countdown;
pub mod laws;
pub mod layers;
pub mod runtime;
pub mod scene;
pub mod target;
