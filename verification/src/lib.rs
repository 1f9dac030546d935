//! Core of a small rendering sandbox: a fixed-timestep loop driver and an
//! orbit camera, both modelled over exact fixed-point integer arithmetic so
//! that every state transition can be stated and proved precisely.

pub mod camera;
pub mod clock;
pub mod math;
pub mod geometry;
pub mod metrics;
pub mod session;
pub mod square;
pub mod texture;
pub mod textured_square;
pub mod triangle;
pub mod matrix;
pub mod quat;
