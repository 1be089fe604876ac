//! A directory-backed catalog of actor projects and the build lifecycle that
//! takes each of them from "not built" to a recorded success or failure.
//!
//! The library holds the decisions; the caller performs the filesystem and
//! subprocess work that they call for and hands back plain values.

pub mod actor;
pub mod lifecycle;
pub mod manifest;
pub mod registry;
pub mod digest;
pub mod error;
pub mod status;
pub mod templates;
pub mod text;
pub mod utils;
