//! Composition of container images and their launch arguments from
//! independent capabilities ("aspects").
//!
//! Every capability contributes ordered build instructions, build-context
//! files, launch arguments, steps of a start-up script and command-line
//! flags. The functions of this crate combine those contributions
//! deterministically and state, as contracts, exactly which text and which
//! argument list comes out.
//!
//! Nothing here touches a file or talks to the container engine, and only
//! three places ask the host anything: [`host::probe`] and
//! [`aspects::CurrentUser::detect`] ask who runs the process, the functions
//! of [`dirs`] ask where the user's directories are. Everything else is a
//! function of the values it is handed, so that a caller gathers the
//! facts, calls the library, and does what the result says.

pub mod applications;
pub mod apps;
pub mod archive;
pub mod aspects;
pub mod cli;
pub mod config;
pub mod containermanager;
pub mod dirs;
pub mod dockerfile;
pub mod entrypoint;
pub mod error;
pub mod fragments;
pub mod host;
pub mod text;
