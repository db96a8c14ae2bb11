//! Containerized cross-compilation toolchains: resolve a target triple to a
//! container image and Dockerfile, select a container engine, and compose the
//! engine invocations that run a command in, build, or push that image.

pub mod build_image;
pub mod containers;
pub mod errors;
pub mod invocation;
pub mod run;
pub mod target;
