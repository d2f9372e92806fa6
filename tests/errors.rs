use mod_manager::error::ModError;

#[test]
fn each_error_has_its_message() {
    let d = || "boom".to_string();
    assert_eq!(ModError::RegexCompile(d()).message(), "Regex compile error: boom");
    assert_eq!(
        ModError::LogNotFound.message(),
        "No known log file found in the specified game path."
    );
    assert_eq!(ModError::LogRead(d()).message(), "Failed to read log file: boom");
    assert_eq!(
        ModError::DeleteFailed { path: "a.zipmod".to_string(), reason: d() }.message(),
        "Failed to delete a.zipmod: boom"
    );
    assert_eq!(ModError::OpenFailed(d()).message(), "Failed to open file: boom");
    assert_eq!(ModError::InvalidZip(d()).message(), "Invalid zip file: boom");
    assert_eq!(ModError::ZipEntry(d()).message(), "Zip error: boom");
    assert_eq!(ModError::EntryRead(d()).message(), "Read error: boom");
    assert_eq!(ModError::XmlParse(d()).message(), "XML parse error: boom");
    assert_eq!(ModError::ManifestMissing.message(), "manifest.xml not found in zip file");
}
