//! Locates or installs the Relay compiler's language server and builds the
//! command line that launches it.
//!
//! The host editor's capabilities (settings, the npm registry, the file
//! system, the node runtime) stay outside this crate: the resolver is a state
//! machine that asks for one of them at a time and is told what came back.
use vstd::prelude::*;

pub mod launch;
pub mod resolver;
pub mod runs;
pub mod settings;

verus! {

/// Where the language server script lives once installed, relative to the
/// working directory.
pub const SERVER_PATH: &'static str = "node_modules/.bin/relay-compiler";

/// The npm package that provides the language server.
pub const PACKAGE_NAME: &'static str = "relay-compiler";

} // verus!
