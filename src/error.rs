//! The errors of the library, and the text that the front end shows for each.

use vstd::prelude::*;

verus! {

/// What went wrong in one of the operations; the `String`s carry the text
/// of the underlying failure.
#[derive(Debug, PartialEq, Eq)]
pub enum ModError {
    /// The conflict pattern did not compile.
    RegexCompile(String),
    /// None of the candidate log files exists.
    LogNotFound,
    /// The log file exists but could not be read.
    LogRead(String),
    /// A mod file could not be moved to the trash.
    DeleteFailed { path: String, reason: String },
    /// The mod archive could not be opened.
    OpenFailed(String),
    /// The mod archive is not a valid zip file.
    InvalidZip(String),
    /// An entry of the archive could not be reached.
    ZipEntry(String),
    /// The manifest entry could not be read as text.
    EntryRead(String),
    /// The manifest is not well-formed.
    XmlParse(String),
    /// No entry of the archive is a manifest.
    ManifestMissing,
}

/// The text shown for `e`.
pub open spec fn message_of(e: ModError) -> Seq<char> {
    match e {
        ModError::RegexCompile(d) => "Regex compile error: "@ + d@,
        ModError::LogNotFound => "No known log file found in the specified game path."@,
        ModError::LogRead(d) => "Failed to read log file: "@ + d@,
        ModError::DeleteFailed { path, reason } => "Failed to delete "@ + path@ + ": "@ + reason@,
        ModError::OpenFailed(d) => "Failed to open file: "@ + d@,
        ModError::InvalidZip(d) => "Invalid zip file: "@ + d@,
        ModError::ZipEntry(d) => "Zip error: "@ + d@,
        ModError::EntryRead(d) => "Read error: "@ + d@,
        ModError::XmlParse(d) => "XML parse error: "@ + d@,
        ModError::ManifestMissing => "manifest.xml not found in zip file"@,
    }
}

fn prefixed(prefix: &str, detail: &String) -> (r: String)
    ensures
        r@ == prefix@ + detail@,
{
    let mut r = String::from_str(prefix);
    r.append(detail.as_str());
    r
}

impl ModError {
    /// The text shown to the user for this error.
    pub fn message(&self) -> (r: String)
        ensures
            r@ == message_of(*self),
    {
        match self {
            ModError::RegexCompile(d) => prefixed("Regex compile error: ", d),
            ModError::LogNotFound => String::from_str(
                "No known log file found in the specified game path.",
            ),
            ModError::LogRead(d) => prefixed("Failed to read log file: ", d),
            ModError::DeleteFailed { path, reason } => {
                let mut r = prefixed("Failed to delete ", path);
                r.append(": ");
                r.append(reason.as_str());
                r
            },
            ModError::OpenFailed(d) => prefixed("Failed to open file: ", d),
            ModError::InvalidZip(d) => prefixed("Invalid zip file: ", d),
            ModError::ZipEntry(d) => prefixed("Zip error: ", d),
            ModError::EntryRead(d) => prefixed("Read error: ", d),
            ModError::XmlParse(d) => prefixed("XML parse error: ", d),
            ModError::ManifestMissing => String::from_str("manifest.xml not found in zip file"),
        }
    }
}

} // verus!
