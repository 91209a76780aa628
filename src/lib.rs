//! Builds OpenSSL's crypto and ssl libraries with OpenSSL's own `Configure`
//! and `make` / `nmake`, for seven desktop and Android targets.
//!
//! The library decides everything: which tools must be present, where each
//! artefact is built and installed, the exact commands and environments to
//! run, and the order of the steps (see [`driver::BuildDriver`]). Probing the
//! machine and spawning processes is left to its caller.

pub mod platform;
pub mod text;
pub mod context;
pub mod library;
pub mod toolchain;
pub mod commands;
pub mod driver;
pub mod laws;
