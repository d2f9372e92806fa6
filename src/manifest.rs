//! Finding the manifest of a mod archive and reading it as text.

use vstd::prelude::*;

use crate::error::ModError;
use crate::text::{ends_with, has_suffix};

verus! {

#[verifier::external_type_specification]
#[verifier::external_body]
#[verifier::reject_recursive_types(R)]
pub struct ExZipArchive<R>(zip::ZipArchive<R>);

#[verifier::external_type_specification]
#[verifier::external_body]
#[verifier::reject_recursive_types(T)]
pub struct ExCursor<T>(std::io::Cursor<T>);

/// A zip archive read from bytes held in memory.
pub type MemArchive = zip::ZipArchive<std::io::Cursor<Vec<u8>>>;

/// The manifest of a mod: its GUID and, where the file gives them, its name,
/// version, author and description.
#[derive(Debug, PartialEq, Eq)]
pub struct ManifestData {
    pub guid: String,
    pub name: Option<String>,
    pub version: Option<String>,
    pub author: Option<String>,
    pub description: Option<String>,
}

/// What `zip::ZipArchive::new` gives for an archive held in `bytes`: `None`
/// where it reads the central directory, else the text of its error.
pub uninterp spec fn zip_open_outcome(bytes: Seq<u8>) -> Option<Seq<char>>;

/// The bytes that an archive reads from.
pub uninterp spec fn archive_source(a: zip::ZipArchive<std::io::Cursor<Vec<u8>>>) -> Seq<u8>;

/// For each entry of the archive held in `bytes`, in index order, what
/// reaching it by index and decoding its name gives: the name, or the text
/// of the error.
pub uninterp spec fn zip_entry_names(bytes: Seq<u8>) -> Seq<Result<Seq<char>, Seq<char>>>;

/// For each entry of the archive held in `bytes` that can be reached by
/// index, what reading its content as text gives: the text, or the text of
/// the error.
pub uninterp spec fn zip_entry_texts(bytes: Seq<u8>) -> Seq<Result<Seq<char>, Seq<char>>>;

/// The lower-case form of `s`, as Unicode defines it.
pub uninterp spec fn lower_of(s: Seq<char>) -> Seq<char>;

/// Relies on `str::to_lowercase`: the result depends on the characters alone.
#[verifier::external_body]
fn lowercase(s: &str) -> (r: String)
    ensures
        r@ == lower_of(s@),
{
    s.to_lowercase()
}

/// `r` is the outcome `o`, as text.
pub open spec fn same_outcome(r: Result<String, String>, o: Result<Seq<char>, Seq<char>>) -> bool {
    match (r, o) {
        (Ok(s), Ok(t)) => s@ == t,
        (Err(s), Err(t)) => s@ == t,
        _ => false,
    }
}

/// `r` is the read outcome `o` of an entry's content.
pub open spec fn text_read_as(r: Result<String, ModError>, o: Result<Seq<char>, Seq<char>>) -> bool {
    match (r, o) {
        (Ok(s), Ok(t)) => s@ == t,
        (Err(ModError::EntryRead(s)), Err(t)) => s@ == t,
        _ => false,
    }
}

/// Relies on `zip::ZipArchive::new` over a `Cursor`: it reads the central
/// directory from the bytes, which the archive keeps as its source.
#[verifier::external_body]
fn open_archive(bytes: Vec<u8>) -> (r: Result<MemArchive, String>)
    ensures
        r is Ok <==> zip_open_outcome(bytes@) is None,
        r matches Ok(a) ==> archive_source(a) == bytes@,
        r matches Err(m) ==> zip_open_outcome(bytes@) == Some(m@),
{
    zip::ZipArchive::new(std::io::Cursor::new(bytes)).map_err(|e| e.to_string())
}

/// Relies on `zip::ZipArchive::len`: the number of entries of the central
/// directory.
#[verifier::external_body]
fn archive_len(a: &MemArchive) -> (r: usize)
    ensures
        r == zip_entry_names(archive_source(*a)).len(),
{
    a.len()
}

/// Relies on `zip::ZipArchive::by_index` and `ZipFile::name`: the name of the
/// entry at index `i`, or the error of either; `by_index` fails on an index
/// past the end, and neither changes the source.
#[verifier::external_body]
fn entry_name(a: &mut MemArchive, i: usize) -> (r: Result<String, String>)
    ensures
        archive_source(*final(a)) == archive_source(*old(a)),
        i < zip_entry_names(archive_source(*old(a))).len() ==> same_outcome(
            r,
            zip_entry_names(archive_source(*old(a)))[i as int],
        ),
        i >= zip_entry_names(archive_source(*old(a))).len() ==> r is Err,
{
    let file = a.by_index(i).map_err(|e| e.to_string())?;
    let name = file.name().map_err(|e| e.to_string())?;
    Ok(name.into_owned())
}

/// Relies on `zip::ZipArchive::by_index` and `Read::read_to_string` of
/// `ZipFile`: the content of the entry at index `i` as text. Where the entry
/// can be reached, the outcome is that of the read; neither call changes the
/// source.
#[verifier::external_body]
fn entry_text(a: &mut MemArchive, i: usize) -> (r: Result<String, ModError>)
    ensures
        archive_source(*final(a)) == archive_source(*old(a)),
        i < zip_entry_names(archive_source(*old(a))).len() && zip_entry_names(
            archive_source(*old(a)),
        )[i as int] is Ok ==> text_read_as(r, zip_entry_texts(archive_source(*old(a)))[i as int]),
        r matches Err(e) ==> e is ZipEntry || e is EntryRead,
{
    let mut file = a.by_index(i).map_err(|e| ModError::ZipEntry(e.to_string()))?;
    let mut text = String::new();
    std::io::Read::read_to_string(&mut file, &mut text).map_err(|e| ModError::EntryRead(e.to_string()))?;
    Ok(text)
}

/// How the search for a manifest ends.
pub enum ManifestScan {
    /// The first manifest entry reads as this text.
    Found(Seq<char>),
    /// An entry before any manifest cannot be reached; the error's text.
    Unreachable(Seq<char>),
    /// The first manifest entry cannot be read; the error's text.
    Unreadable(Seq<char>),
    /// Every entry was reached and none is a manifest.
    Missing,
}

/// The search for a manifest from entry `i` on: entries are reached in index
/// order, and the first manifest among them is read.
pub open spec fn scan_manifest(
    names: Seq<Result<Seq<char>, Seq<char>>>,
    texts: Seq<Result<Seq<char>, Seq<char>>>,
    i: int,
) -> ManifestScan
    decreases names.len() - i,
{
    if 0 <= i < names.len() {
        match names[i] {
            Err(m) => ManifestScan::Unreachable(m),
            Ok(n) => if is_manifest_name(n) {
                match texts[i] {
                    Ok(t) => ManifestScan::Found(t),
                    Err(m) => ManifestScan::Unreadable(m),
                }
            } else {
                scan_manifest(names, texts, i + 1)
            },
        }
    } else {
        ManifestScan::Missing
    }
}

/// The search for a manifest in the archive held in `bytes`.
pub open spec fn scan_archive(bytes: Seq<u8>) -> ManifestScan {
    scan_manifest(zip_entry_names(bytes), zip_entry_texts(bytes), 0)
}

/// `r` reports the end `o` of a search.
pub open spec fn reports(r: Result<String, ModError>, o: ManifestScan) -> bool {
    match (o, r) {
        (ManifestScan::Found(t), Ok(s)) => s@ == t,
        (ManifestScan::Unreachable(m), Err(ModError::ZipEntry(s))) => s@ == m,
        (ManifestScan::Unreadable(m), Err(ModError::EntryRead(s))) => s@ == m,
        (ManifestScan::Missing, Err(ModError::ManifestMissing)) => true,
        _ => false,
    }
}

/// Whether an entry name, once folded to lower case, names a manifest.
pub open spec fn is_manifest_folded_spec(folded: Seq<char>) -> bool {
    has_suffix(folded, "manifest.xml"@)
}

/// Whether an entry named `name` is a manifest: its lower-case form ends
/// with `manifest.xml`.
pub open spec fn is_manifest_name(name: Seq<char>) -> bool {
    is_manifest_folded_spec(lower_of(name))
}

/// Whether `folded`, an entry name already in lower case, names a manifest.
pub fn is_manifest_folded(folded: &str) -> (r: bool)
    ensures
        r == is_manifest_folded_spec(folded@),
{
    ends_with(folded, "manifest.xml")
}

/// Whether the entry named `name` is a manifest, whatever the case of its
/// letters.
pub fn is_manifest_entry(name: &str) -> (r: bool)
    ensures
        r == is_manifest_name(name@),
{
    let folded = lowercase(name);
    is_manifest_folded(folded.as_str())
}

/// The text of the first manifest entry of `archive`, in index order. An
/// entry that cannot be reached before it ends the search with its error.
pub fn manifest_text(archive: &mut MemArchive) -> (r: Result<String, ModError>)
    ensures
        archive_source(*final(archive)) == archive_source(*old(archive)),
        reports(r, scan_archive(archive_source(*old(archive)))),
{
    let ghost src = archive_source(*archive);
    let ghost names = zip_entry_names(src);
    let ghost texts = zip_entry_texts(src);
    let n = archive_len(archive);
    let mut i: usize = 0;
    while i < n
        invariant
            archive_source(*archive) == src,
            src == archive_source(*old(archive)),
            names == zip_entry_names(src),
            texts == zip_entry_texts(src),
            n == names.len(),
            i <= n,
            scan_manifest(names, texts, i as int) == scan_manifest(names, texts, 0),
        decreases n - i,
    {
        let name = match entry_name(archive, i) {
            Ok(name) => name,
            Err(e) => {
                return Err(ModError::ZipEntry(e));
            },
        };
        if is_manifest_entry(name.as_str()) {
            return entry_text(archive, i);
        }
        i = i + 1;
    }
    Err(ModError::ManifestMissing)
}

/// What reading the manifest of the archive held in `bytes` gives.
pub open spec fn manifest_read_reports(r: Result<String, ModError>, bytes: Seq<u8>) -> bool {
    match zip_open_outcome(bytes) {
        Some(m) => r matches Err(ModError::InvalidZip(s)) && s@ == m,
        None => reports(r, scan_archive(bytes)),
    }
}

/// The text of the manifest of the zip archive held in `bytes`.
pub fn read_manifest_text(bytes: Vec<u8>) -> (r: Result<String, ModError>)
    ensures
        manifest_read_reports(r, bytes@),
{
    match open_archive(bytes) {
        Ok(mut archive) => manifest_text(&mut archive),
        Err(e) => Err(ModError::InvalidZip(e)),
    }
}

} // verus!
