//! The files that describe an actor: its manifest and its package descriptor.

use vstd::prelude::*;

verus! {

/// A host-provided facility that an actor declares it needs.
#[derive(Clone, Copy, Debug, PartialEq, Eq, Structural)]
pub enum HandlerConfig {
    Runtime,
    MessageServer,
    HttpServer { port: u16 },
    Supervisor,
}

/// The manifest of an actor: its name, where its built artifact lies (empty
/// until a build succeeds), descriptions, initial state and handlers.
#[derive(Clone, Debug)]
pub struct ActorManifest {
    pub name: String,
    pub component_path: String,
    pub short_description: Option<String>,
    pub long_description: Option<String>,
    pub init_state: Option<String>,
    pub handlers: Vec<HandlerConfig>,
}

/// The `[package]` table of an actor's package descriptor.
#[derive(Clone, Debug)]
pub struct CargoPackage {
    pub name: String,
    pub version: String,
    pub edition: String,
}

/// The `[lib]` table of an actor's package descriptor.
#[derive(Clone, Debug)]
pub struct CargoLib {
    pub crate_type: Vec<String>,
}

/// One dependency: its name, and its version string or table as JSON text.
#[derive(Clone, Debug)]
pub struct Dependency {
    pub name: String,
    pub spec_json: String,
}

/// An actor's package descriptor.
#[derive(Clone, Debug)]
pub struct ActorCargoConfig {
    pub package: CargoPackage,
    pub lib: Option<CargoLib>,
    pub dependencies: Vec<Dependency>,
}

} // verus!
