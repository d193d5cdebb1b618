use vstd::prelude::*;

use crate::error::InstallError;

verus! {

/// The member under which a package may carry the application archive itself.
pub const NESTED_ARCHIVE_NAME: &'static str = "application.zip";

/// The member of the application archive that holds its manifest.
pub const MANIFEST_NAME: &'static str = "manifest.webapp";

/// What zip finds under `name` in the zip archive `archive`: `None` where the
/// archive or that member cannot be read, `Some(None)` where no member has
/// that name, and otherwise the member's uncompressed bytes.
pub uninterp spec fn zip_lookup(archive: Seq<u8>, name: Seq<char>) -> Option<Option<Seq<u8>>>;

/// Relies on zip's `ZipArchive::new` over the bytes in memory,
/// `ZipArchive::by_name_decrypt`, which fails with `FileNotFound` exactly
/// when no member has that name, and reading the member out with
/// `read_to_end`. The empty password is dropped for a member that is not
/// encrypted; a member that asks for a password, and does not take the empty
/// one, is reported as the invalid-password value, never by a panic.
#[verifier::external_body]
fn read_member(archive: &[u8], name: &str) -> (r: Result<Option<Vec<u8>>, InstallError>)
    ensures
        match r {
            Ok(Some(bytes)) => zip_lookup(archive@, name@) == Some(Some(bytes@)),
            Ok(None) => zip_lookup(archive@, name@) == Some(None::<Seq<u8>>),
            Err(e) => zip_lookup(archive@, name@) is None && e == InstallError::ArchiveUnreadable,
        },
{
    let Ok(mut zip) = zip::ZipArchive::new(std::io::Cursor::new(archive)) else {
        return Err(InstallError::ArchiveUnreadable);
    };
    let mut member = match zip.by_name_decrypt(name, b"") {
        Ok(Ok(member)) => member,
        Ok(Err(_)) => return Err(InstallError::ArchiveUnreadable),
        Err(zip::result::ZipError::FileNotFound) => return Ok(None),
        Err(_) => return Err(InstallError::ArchiveUnreadable),
    };
    let mut bytes = Vec::new();
    match std::io::Read::read_to_end(&mut member, &mut bytes) {
        Ok(_) => Ok(Some(bytes)),
        Err(_) => Err(InstallError::ArchiveUnreadable),
    }
}

/// A package ready to install: the application archive, whether it was
/// found nested in the package, and the raw bytes of its manifest.
pub struct Package {
    pub payload: Vec<u8>,
    pub nested: bool,
    pub manifest: Vec<u8>,
}

/// The application archive of a package: the nested archive where the
/// package has one, else the package itself.
pub open spec fn payload_of(archive: Seq<u8>, nested_member: Option<Seq<u8>>) -> Seq<u8> {
    match nested_member {
        Some(inner) => inner,
        None => archive,
    }
}

/// What opening the package `archive` gives: the application archive,
/// whether it was nested, and the manifest's bytes; or why it fails.
pub open spec fn package_outcome(archive: Seq<u8>) -> Result<(Seq<u8>, bool, Seq<u8>), InstallError> {
    match zip_lookup(archive, NESTED_ARCHIVE_NAME@) {
        None => Err(InstallError::ArchiveUnreadable),
        Some(nested_member) => {
            let payload = payload_of(archive, nested_member);
            match zip_lookup(payload, MANIFEST_NAME@) {
                None => Err(InstallError::ArchiveUnreadable),
                Some(None) => Err(InstallError::ManifestMissing),
                Some(Some(manifest)) => Ok((payload, nested_member is Some, manifest)),
            }
        },
    }
}

/// Picks the application archive: the nested member where there is one,
/// else the package itself. The flag tells whether it was nested.
pub fn choose_payload(archive: Vec<u8>, nested_member: Option<Vec<u8>>) -> (r: (Vec<u8>, bool))
    ensures
        match nested_member {
            Some(inner) => r.0@ == inner@ && r.1,
            None => r.0@ == archive@ && !r.1,
        },
{
    match nested_member {
        Some(inner) => (inner, true),
        None => (archive, false),
    }
}

/// The manifest's bytes, from what the lookup of the manifest member found.
pub fn manifest_from(manifest_member: Option<Vec<u8>>) -> (r: Result<Vec<u8>, InstallError>)
    ensures
        match manifest_member {
            Some(bytes) => r == Ok::<Vec<u8>, InstallError>(bytes),
            None => r == Err::<Vec<u8>, InstallError>(InstallError::ManifestMissing),
        },
{
    match manifest_member {
        Some(bytes) => Ok(bytes),
        None => Err(InstallError::ManifestMissing),
    }
}

/// Opens a package: where it carries the application archive as a member,
/// that nested archive is the one installed and the one whose manifest is
/// read; else the package is the application archive itself.
pub fn open_package(archive: Vec<u8>) -> (r: Result<Package, InstallError>)
    ensures
        match r {
            Ok(p) => package_outcome(archive@) == Ok::<_, InstallError>(
                (p.payload@, p.nested, p.manifest@),
            ),
            Err(e) => package_outcome(archive@) == Err::<(Seq<u8>, bool, Seq<u8>), _>(e),
        },
{
    let nested_member = read_member(archive.as_slice(), NESTED_ARCHIVE_NAME)?;
    let (payload, nested) = choose_payload(archive, nested_member);
    let manifest_member = read_member(payload.as_slice(), MANIFEST_NAME)?;
    let manifest = manifest_from(manifest_member)?;
    Ok(Package { payload, nested, manifest })
}

/// A package that carries an application archive as a member is installed
/// from that nested archive: it is the payload, and the manifest is the one
/// inside it, not one looked up in the package.
pub proof fn lemma_nested_archive_installed(archive: Seq<u8>, inner: Seq<u8>, manifest: Seq<u8>)
    requires
        zip_lookup(archive, NESTED_ARCHIVE_NAME@) == Some(Some(inner)),
        zip_lookup(inner, MANIFEST_NAME@) == Some(Some(manifest)),
    ensures
        package_outcome(archive) == Ok::<_, InstallError>((inner, true, manifest)),
{
}

/// The manifest bytes of an opened package are exactly the bytes of the
/// manifest member of its application archive.
pub proof fn lemma_manifest_bytes_kept(archive: Seq<u8>)
    requires
        package_outcome(archive) is Ok,
    ensures
        ({
            let (payload, _, manifest) = package_outcome(archive)->Ok_0;
            zip_lookup(payload, MANIFEST_NAME@) == Some(Some(manifest))
        }),
{
}

} // verus!
