//! Bundle manifests: a typed record for how a packaged application is
//! launched and identified, its INI text form, and its place in a zip archive.

pub mod archive;
pub mod builder;
pub mod bundle;
pub mod decode;
pub mod error;
pub mod field;
pub mod ini;
pub mod kind;
pub mod laws;
pub mod scalar;
pub mod text;

pub use archive::{ArchiveWriter, MANIFEST_ENTRY};
pub use builder::{BundleConfigBuilder, HomebrewBundleConfigBuilder, StoreBundleConfigBuilder};
pub use bundle::{Bundle, BundleConfig};
pub use error::{ArchiveError, BundleError, BundleResult, DecodeError, ValueError};
pub use field::Field;
pub use ini::Line;
pub use kind::BundleType;
pub use scalar::TextValue;
