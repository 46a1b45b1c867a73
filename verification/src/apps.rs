//! Applications that bring their own, fixed launch.

pub mod chrome;
