use std::io::{Cursor, Write};

use webapp_install::{choose_payload, manifest_from, open_package, InstallError};

fn zip_of(members: &[(&str, &[u8])]) -> Vec<u8> {
    let mut w = zip::ZipWriter::new(Cursor::new(Vec::new()));
    for (name, bytes) in members {
        w.start_file(*name, zip::write::FileOptions::default()).unwrap();
        w.write_all(bytes).unwrap();
    }
    w.finish().unwrap().into_inner()
}

const DEMO: &[u8] = br#"{"name":"Demo","version":"1.0","origin":"app://demo.example"}"#;

#[test]
fn plain_package_is_its_own_payload() {
    let archive = zip_of(&[("manifest.webapp", DEMO), ("index.html", b"<html></html>")]);
    let p = open_package(archive.clone()).unwrap();
    assert!(!p.nested);
    assert_eq!(p.payload, archive);
    assert_eq!(p.manifest, DEMO.to_vec());
}

#[test]
fn nested_archive_is_unwrapped() {
    let inner = zip_of(&[("manifest.webapp", DEMO)]);
    let outer = zip_of(&[("application.zip", &inner)]);
    let p = open_package(outer).unwrap();
    assert!(p.nested);
    assert_eq!(p.payload, inner);
    assert_eq!(p.manifest, DEMO.to_vec());
}

#[test]
fn nested_manifest_wins_over_outer_one() {
    let inner = zip_of(&[("manifest.webapp", DEMO)]);
    let outer = zip_of(&[("manifest.webapp", b"{}"), ("application.zip", &inner)]);
    let p = open_package(outer).unwrap();
    assert_eq!(p.manifest, DEMO.to_vec());
}

#[test]
fn manifest_bytes_kept_verbatim() {
    let raw: &[u8] = b"{ \"name\" : \"X\",\n  \"version\":\"2\", \"origin\":\"app://x.y\", \"extra\": [1, 2] }\n";
    let p = open_package(zip_of(&[("manifest.webapp", raw)])).unwrap();
    assert_eq!(p.manifest, raw.to_vec());
}

#[test]
fn missing_manifest_refused() {
    let archive = zip_of(&[("index.html", b"<html></html>")]);
    assert!(matches!(open_package(archive), Err(InstallError::ManifestMissing)));
}

#[test]
fn nested_archive_without_manifest_refused() {
    let inner = zip_of(&[("index.html", b"x")]);
    let outer = zip_of(&[("manifest.webapp", DEMO), ("application.zip", &inner)]);
    assert!(matches!(open_package(outer), Err(InstallError::ManifestMissing)));
}

#[test]
fn not_an_archive_refused() {
    assert!(matches!(open_package(b"not a zip file".to_vec()), Err(InstallError::ArchiveUnreadable)));
    assert!(matches!(open_package(Vec::new()), Err(InstallError::ArchiveUnreadable)));
}

#[test]
fn unreadable_nested_archive_refused() {
    let outer = zip_of(&[("application.zip", b"garbage")]);
    assert!(matches!(open_package(outer), Err(InstallError::ArchiveUnreadable)));
}

#[test]
fn choose_payload_prefers_nested() {
    assert_eq!(choose_payload(vec![1, 2], Some(vec![3])), (vec![3], true));
    assert_eq!(choose_payload(vec![1, 2], None), (vec![1, 2], false));
}

#[test]
fn manifest_from_lookup() {
    assert_eq!(manifest_from(Some(vec![7, 8])), Ok(vec![7, 8]));
    assert_eq!(manifest_from(None), Err(InstallError::ManifestMissing));
}

fn le16(v: &mut Vec<u8>, x: u16) {
    v.extend_from_slice(&x.to_le_bytes());
}

fn le32(v: &mut Vec<u8>, x: u32) {
    v.extend_from_slice(&x.to_le_bytes());
}

// One stored member, not flagged as encrypted, whose central record carries
// an AES extra field.
fn zip_with_aes_field(name: &str, data: &[u8]) -> Vec<u8> {
    let mut z = Vec::new();
    le32(&mut z, 0x04034b50);
    for x in [20u16, 0, 0, 0, 0] {
        le16(&mut z, x);
    }
    le32(&mut z, 0);
    le32(&mut z, data.len() as u32);
    le32(&mut z, data.len() as u32);
    le16(&mut z, name.len() as u16);
    le16(&mut z, 0);
    z.extend_from_slice(name.as_bytes());
    z.extend_from_slice(data);
    let cd_start = z.len() as u32;
    le32(&mut z, 0x02014b50);
    for x in [20u16, 20, 0, 0, 0, 0] {
        le16(&mut z, x);
    }
    le32(&mut z, 0);
    le32(&mut z, data.len() as u32);
    le32(&mut z, data.len() as u32);
    le16(&mut z, name.len() as u16);
    le16(&mut z, 11);
    for x in [0u16, 0, 0] {
        le16(&mut z, x);
    }
    le32(&mut z, 0);
    le32(&mut z, 0);
    z.extend_from_slice(name.as_bytes());
    z.extend_from_slice(&[0x01, 0x99, 7, 0, 0x01, 0x00, 0x41, 0x45, 0x03, 0x00, 0x00]);
    let cd_size = z.len() as u32 - cd_start;
    le32(&mut z, 0x06054b50);
    for x in [0u16, 0, 1, 1] {
        le16(&mut z, x);
    }
    le32(&mut z, cd_size);
    le32(&mut z, cd_start);
    le16(&mut z, 0);
    z
}

#[test]
fn aes_marked_member_refused_without_panic() {
    let archive = zip_with_aes_field("manifest.webapp", DEMO);
    assert!(matches!(open_package(archive), Err(InstallError::ArchiveUnreadable)));
}

#[test]
fn aes_marked_nested_member_refused_without_panic() {
    let archive = zip_with_aes_field("application.zip", b"anything");
    assert!(matches!(open_package(archive), Err(InstallError::ArchiveUnreadable)));
}
