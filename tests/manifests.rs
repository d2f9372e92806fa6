use std::io::{Cursor, Write};

use mod_manager::error::ModError;
use mod_manager::manifest::{is_manifest_entry, is_manifest_folded, read_manifest_text};
use zip::write::SimpleFileOptions;
use zip::{CompressionMethod, ZipWriter};

fn archive(entries: &[(&str, &str)]) -> Vec<u8> {
    let mut w = ZipWriter::new(Cursor::new(Vec::new()));
    let opts = SimpleFileOptions::default().compression_method(CompressionMethod::Stored);
    for (name, body) in entries {
        w.start_file(*name, opts).unwrap();
        w.write_all(body.as_bytes()).unwrap();
    }
    w.finish().unwrap().into_inner()
}

#[test]
fn manifest_names_ignore_case() {
    assert!(is_manifest_entry("manifest.xml"));
    assert!(is_manifest_entry("Sub/MANIFEST.XML"));
    assert!(is_manifest_entry("ModManifest.Xml"));
    assert!(!is_manifest_entry("manifest.xml.txt"));
    assert!(!is_manifest_entry("abdata/list.xml"));
    assert!(is_manifest_folded("manifest.xml"));
    assert!(!is_manifest_folded("MANIFEST.XML"));
}

#[test]
fn first_manifest_is_read() {
    let bytes = archive(&[
        ("abdata/thing.unity3d", "data"),
        ("Manifest.xml", "<manifest><guid>one</guid></manifest>"),
        ("other/manifest.xml", "<manifest><guid>two</guid></manifest>"),
    ]);
    assert_eq!(read_manifest_text(bytes).unwrap(), "<manifest><guid>one</guid></manifest>");
}

#[test]
fn archive_without_manifest() {
    let bytes = archive(&[("readme.txt", "hi")]);
    assert_eq!(read_manifest_text(bytes), Err(ModError::ManifestMissing));
    assert_eq!(read_manifest_text(archive(&[])), Err(ModError::ManifestMissing));
}

#[test]
fn bytes_that_are_no_archive() {
    assert!(matches!(read_manifest_text(b"not a zip".to_vec()), Err(ModError::InvalidZip(_))));
}

#[test]
fn unreadable_first_manifest_is_not_skipped() {
    let mut w = ZipWriter::new(Cursor::new(Vec::new()));
    let opts = SimpleFileOptions::default().compression_method(CompressionMethod::Stored);
    w.start_file("a/manifest.xml", opts).unwrap();
    w.write_all(&[0xff, 0xfe, 0x00]).unwrap();
    w.start_file("b/manifest.xml", opts).unwrap();
    w.write_all(b"<manifest><guid>two</guid></manifest>").unwrap();
    let bytes = w.finish().unwrap().into_inner();
    assert!(matches!(read_manifest_text(bytes), Err(ModError::EntryRead(_))));
}

#[test]
fn open_error_text_is_carried() {
    let bytes = b"not a zip".to_vec();
    let expected = zip::ZipArchive::new(Cursor::new(bytes.clone())).unwrap_err().to_string();
    assert_eq!(read_manifest_text(bytes), Err(ModError::InvalidZip(expected)));
}
