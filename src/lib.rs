//! A git hook manager: hook stubs, the shared dispatcher script, and the
//! `core.hooksPath` binding, described as verified operation plans that a
//! small driver carries out against the filesystem and git.

pub mod cli;
pub mod editor;
pub mod hooks;
pub mod laws;
pub mod model;
pub mod plan;
pub mod session;
