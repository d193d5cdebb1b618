//! Installs a packaged web application into a device's registry of
//! installed applications: the archive is unwrapped and its manifest found,
//! the application gets its identity and a fresh local id, and a new entry is
//! appended to the ordered registry.
//!
//! Reading and writing files and the JSON text of the manifest and registry
//! are left to the caller; everything decided in between is verified here.

pub mod archive;
pub mod entry;
pub mod error;
pub mod install;
pub mod registry;

pub use archive::{choose_payload, manifest_from, open_package, Package, MANIFEST_NAME, NESTED_ARCHIVE_NAME};
pub use entry::{app_id, build_entry, AdditionalLanguages, Manifest, RegistryEntry};
pub use error::InstallError;
pub use install::install;
pub use registry::Registry;
