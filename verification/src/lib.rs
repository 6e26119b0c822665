//! Resolution logic for locating, installing, and launching the `clice`
//! language server from an editor plugin.
//!
//! The library holds the deterministic part of the work: deciding when the
//! cached binary path can be reused, which release asset fits the current
//! platform, where the downloaded package lives on disk, and which
//! command-line arguments the spawned server receives. The host-facing shim
//! that performs lookups, network queries, downloads, and path
//! canonicalisation lives outside the library and feeds the results of those
//! calls back in as plain values.

pub mod command;
pub mod install;
pub mod platform;
pub mod release;
pub mod resolver;
pub mod strutil;
