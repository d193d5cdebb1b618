use vstd::prelude::*;

verus! {

/// Why an installation did not go through.
#[derive(Clone, Copy, Debug, PartialEq, Eq, Structural)]
pub enum InstallError {
    /// The archive, or the archive nested in it, or one of its members
    /// cannot be read.
    ArchiveUnreadable,
    /// The application archive holds no manifest.
    ManifestMissing,
    /// The manifest's origin is too short to leave an identity once its
    /// scheme prefix is removed.
    InvalidOrigin,
    /// The registry already holds an application of that identity.
    AlreadyInstalled,
    /// The largest local id in the registry leaves no room for another.
    LocalIdExhausted,
}

impl InstallError {
    /// A one-line description of the failure.
    pub fn message(&self) -> (r: &'static str) {
        match self {
            InstallError::ArchiveUnreadable => "failed to read the application archive",
            InstallError::ManifestMissing => "failed to find manifest.webapp",
            InstallError::InvalidOrigin => "the manifest origin leaves no application id",
            InstallError::AlreadyInstalled => "this app is already installed",
            InstallError::LocalIdExhausted => "no local id is left for a new app",
        }
    }
}

} // verus!
