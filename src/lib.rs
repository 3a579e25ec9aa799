//! One-way mirroring of a source directory onto a target directory.
//!
//! Paths are held as sequences of components, so that no path separator is
//! assumed anywhere in the library; joining components is left to the host.
pub mod directory;
pub mod events;
pub mod path;
pub mod reconcile;
pub mod watcher;
