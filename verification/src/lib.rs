//! Items that carry scripts: manifests, the module tables they name, and the
//! workers and proxies that run those scripts.
pub mod derive;
pub mod dom;
pub mod logic;
pub mod manifest;
