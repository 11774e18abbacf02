//! A verified core for a cross-platform binary package manager.
//!
//! A package is described by a formula: a manifest that names the package,
//! its executable, and a download location per operating system and CPU
//! architecture.  The library resolves the download target for a machine,
//! discovers release versions from repository tags, locates one file inside
//! an archive of any of the supported container formats, and plans the
//! installation steps; the surrounding binary performs the file, network
//! and subprocess work.

pub mod cask;
pub mod extractor;
pub mod formula;
pub mod hooker;
pub mod linker;
pub mod shell;
pub mod pipeline;
pub mod repo;
pub mod text;
pub mod version;
