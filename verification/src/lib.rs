//! Build and read binary Deb packages.
//!
//! A package is described in memory by a [`binary::DebPackage`]: its control
//! record, its files and its maintainer scripts. [`binary::DebPackage::build`]
//! turns the description into a [`binary::DebArchive`], whose bytes are a `.deb`
//! file, and [`binary::DebArchive::to_package`] reads a description back.
//!
//! The text form of the control record is this crate's own, in [`control`].
//! The tar streams, the `ar` container and the two compression codecs are
//! those of the crates `tar`, `ar`, `xz` and `zstd`; [`bundle`], [`container`]
//! and [`compress`] say what is taken from them.
pub mod binary;
pub mod binary_laws;
pub mod bundle;
pub mod compress;
pub mod container;
pub mod control;
pub mod control_laws;
pub mod error;
pub mod fields;
pub mod shared;
pub mod text;

pub use crate::error::DebError;
pub use crate::shared::{DebArchitecture, DebCompression, DebFile, DebPriority};
