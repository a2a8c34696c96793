//! Archive entry selection: picking exactly one named binary out of a zip
//! or gzipped-tar release archive held in memory. Container parsing is
//! delegated to the zip, flate2 and tar crates behind trusted wrappers; the
//! selection rules themselves are verified.

use vstd::prelude::*;
use vstd::string::*;
use crate::text::{spec_ends_with, str_ends_with};

verus! {

/// One archive entry: its path inside the archive, and its contents.
pub struct ArchiveEntry {
    pub name: String,
    pub data: Vec<u8>,
}

/// View of one entry: its path's characters and its content bytes.
pub open spec fn spec_entry_view(e: ArchiveEntry) -> (Seq<char>, Seq<u8>) {
    (e.name@, e.data@)
}

/// Views of a run of entries.
pub open spec fn spec_entries_view(es: Seq<ArchiveEntry>) -> Seq<(Seq<char>, Seq<u8>)> {
    es.map_values(|e: ArchiveEntry| spec_entry_view(e))
}

/// The entries (path, contents) the zip container `bytes` holds, in archive
/// order.
pub uninterp spec fn zip_entries_of(bytes: Seq<u8>) -> Seq<(Seq<char>, Seq<u8>)>;

/// The zip container `bytes` parses in full: the archive directory and
/// every entry's contents.
pub uninterp spec fn zip_parse_ok(bytes: Seq<u8>) -> bool;

/// Relies on zip::ZipArchive (new, len, by_index) and on reading each entry
/// through std::io::Read: parsing in-memory bytes is deterministic, and
/// yields every entry's path and bytes in archive order.
#[verifier::external_body]
fn zip_entries(bytes: &Vec<u8>) -> (r: Result<Vec<ArchiveEntry>, String>)
    ensures
        r is Ok <==> zip_parse_ok(bytes@),
        r is Ok ==> spec_entries_view(r->Ok_0@) == zip_entries_of(bytes@),
{
    let cursor = std::io::Cursor::new(bytes.as_slice());
    let mut archive = zip::ZipArchive::new(cursor).map_err(|e| e.to_string())?;
    let mut out: Vec<ArchiveEntry> = Vec::new();
    for i in 0..archive.len() {
        let mut f = archive.by_index(i).map_err(|e| e.to_string())?;
        let name = f.name().to_string();
        let mut data: Vec<u8> = Vec::new();
        std::io::Read::read_to_end(&mut f, &mut data).map_err(|e| e.to_string())?;
        out.push(ArchiveEntry { name, data });
    }
    Ok(out)
}

/// The bytes that decompressing the gzip stream `bytes` yields.
pub uninterp spec fn gunzip_of(bytes: Seq<u8>) -> Seq<u8>;

/// The gzip stream `bytes` decompresses in full.
pub uninterp spec fn gunzip_ok(bytes: Seq<u8>) -> bool;

/// Relies on flate2::read::GzDecoder: decompressing in-memory bytes is
/// deterministic, and reading to the end yields the decompressed stream.
#[verifier::external_body]
fn gunzip(bytes: &Vec<u8>) -> (r: Result<Vec<u8>, String>)
    ensures
        r is Ok <==> gunzip_ok(bytes@),
        r is Ok ==> r->Ok_0@ == gunzip_of(bytes@),
{
    let mut decoder = flate2::read::GzDecoder::new(bytes.as_slice());
    let mut out: Vec<u8> = Vec::new();
    std::io::Read::read_to_end(&mut decoder, &mut out).map_err(|e| e.to_string())?;
    Ok(out)
}

/// The entries (path, contents) the tar container `bytes` holds, in archive
/// order.
pub uninterp spec fn tar_entries_of(bytes: Seq<u8>) -> Seq<(Seq<char>, Seq<u8>)>;

/// The tar container `bytes` parses in full: every header and every
/// entry's path and contents.
pub uninterp spec fn tar_parse_ok(bytes: Seq<u8>) -> bool;

/// Relies on tar::Archive (entries) and tar::Entry (path_bytes, plus
/// reading the contents through std::io::Read): parsing in-memory bytes is
/// deterministic, and iteration yields every entry's path and bytes in
/// archive order. The raw path bytes are decoded to UTF-8 lossily here, so
/// the result is the same on every build target (tar::Entry::path would
/// instead fail on non-UTF-8 names on the Windows family only).
#[verifier::external_body]
fn tar_entries(bytes: &Vec<u8>) -> (r: Result<Vec<ArchiveEntry>, String>)
    ensures
        r is Ok <==> tar_parse_ok(bytes@),
        r is Ok ==> spec_entries_view(r->Ok_0@) == tar_entries_of(bytes@),
{
    let mut archive = tar::Archive::new(bytes.as_slice());
    let mut out: Vec<ArchiveEntry> = Vec::new();
    for entry in archive.entries().map_err(|e| e.to_string())? {
        let mut entry = entry.map_err(|e| e.to_string())?;
        let name = String::from_utf8_lossy(&entry.path_bytes()).to_string();
        let mut data: Vec<u8> = Vec::new();
        std::io::Read::read_to_end(&mut entry, &mut data).map_err(|e| e.to_string())?;
        out.push(ArchiveEntry { name, data });
    }
    Ok(out)
}

/// A zip entry is selected when its path ends with the binary's filename.
pub open spec fn spec_zip_name_matches(name: Seq<char>, binary: Seq<char>) -> bool {
    spec_ends_with(name, binary)
}

/// A tar entry is selected when its path ends with `/` plus the binary's
/// name, and does not end with that name followed by `x` (which would be a
/// same-prefixed sibling tool).
pub open spec fn spec_tar_name_matches(name: Seq<char>, binary: Seq<char>) -> bool {
    spec_ends_with(name, "/"@ + binary) && !spec_ends_with(name, "/"@ + binary + "x"@)
}

/// `i` is the first zip entry that selects `binary`.
pub open spec fn spec_zip_match_at(
    entries: Seq<(Seq<char>, Seq<u8>)>,
    binary: Seq<char>,
    i: int,
) -> bool {
    &&& 0 <= i < entries.len()
    &&& spec_zip_name_matches(entries[i].0, binary)
    &&& forall|j: int| 0 <= j < i ==> !spec_zip_name_matches(entries[j].0, binary)
}

/// Some zip entry selects `binary`.
pub open spec fn spec_zip_has_match(entries: Seq<(Seq<char>, Seq<u8>)>, binary: Seq<char>) -> bool {
    exists|i: int| spec_zip_match_at(entries, binary, i)
}

/// `i` is the first tar entry that selects `binary`.
pub open spec fn spec_tar_match_at(
    entries: Seq<(Seq<char>, Seq<u8>)>,
    binary: Seq<char>,
    i: int,
) -> bool {
    &&& 0 <= i < entries.len()
    &&& spec_tar_name_matches(entries[i].0, binary)
    &&& forall|j: int| 0 <= j < i ==> !spec_tar_name_matches(entries[j].0, binary)
}

/// Some tar entry selects `binary`.
pub open spec fn spec_tar_has_match(entries: Seq<(Seq<char>, Seq<u8>)>, binary: Seq<char>) -> bool {
    exists|i: int| spec_tar_match_at(entries, binary, i)
}

fn select_zip_index(entries: &Vec<ArchiveEntry>, binary: &str) -> (r: Option<usize>)
    ensures
        match r {
            Some(i) => spec_zip_match_at(spec_entries_view(entries@), binary@, i as int),
            None => !spec_zip_has_match(spec_entries_view(entries@), binary@),
        },
{
    let ghost view = spec_entries_view(entries@);
    let mut i: usize = 0;
    while i < entries.len()
        invariant
            view == spec_entries_view(entries@),
            0 <= i <= entries@.len(),
            view.len() == entries@.len(),
            forall|j: int| 0 <= j < i ==> !spec_zip_name_matches(#[trigger] view[j].0, binary@),
        decreases entries@.len() - i,
    {
        proof {
            assert(view[i as int].0 == entries@[i as int].name@);
        }
        if str_ends_with(entries[i].name.as_str(), binary) {
            return Some(i);
        }
        i += 1;
    }
    proof {
        assert forall|k: int| !spec_zip_match_at(view, binary@, k) by {
            if 0 <= k < view.len() {
                assert(!spec_zip_name_matches(view[k].0, binary@));
            }
        }
    }
    None
}

fn select_tar_index(entries: &Vec<ArchiveEntry>, binary: &str) -> (r: Option<usize>)
    ensures
        match r {
            Some(i) => spec_tar_match_at(spec_entries_view(entries@), binary@, i as int),
            None => !spec_tar_has_match(spec_entries_view(entries@), binary@),
        },
{
    let mut pat = String::from_str("/");
    pat.append(binary);
    let mut anti = String::from_str("/");
    anti.append(binary);
    anti.append("x");
    let ghost view = spec_entries_view(entries@);
    let mut i: usize = 0;
    while i < entries.len()
        invariant
            view == spec_entries_view(entries@),
            pat@ == "/"@ + binary@,
            anti@ == "/"@ + binary@ + "x"@,
            0 <= i <= entries@.len(),
            view.len() == entries@.len(),
            forall|j: int| 0 <= j < i ==> !spec_tar_name_matches(#[trigger] view[j].0, binary@),
        decreases entries@.len() - i,
    {
        proof {
            assert(view[i as int].0 == entries@[i as int].name@);
        }
        if str_ends_with(entries[i].name.as_str(), pat.as_str()) && !str_ends_with(
            entries[i].name.as_str(),
            anti.as_str(),
        ) {
            return Some(i);
        }
        i += 1;
    }
    proof {
        assert forall|k: int| !spec_tar_match_at(view, binary@, k) by {
            if 0 <= k < view.len() {
                assert(!spec_tar_name_matches(view[k].0, binary@));
            }
        }
    }
    None
}

/// Pull the first entry whose path ends with `binary_name` out of the zip
/// archive `bytes`. `Ok(None)` reports that the archive parsed but held no
/// matching entry. The archive is parsed in full up front, so corruption
/// anywhere in it is reported even when it lies past the matching entry;
/// keeping selection out of the trusted wrapper is worth that strictness.
pub fn extract_zip(bytes: &Vec<u8>, binary_name: &str) -> (r: Result<Option<Vec<u8>>, String>)
    ensures
        r is Ok <==> zip_parse_ok(bytes@),
        r is Ok ==> (r->Ok_0 is Some <==> spec_zip_has_match(zip_entries_of(bytes@), binary_name@)),
        r matches Ok(Some(data)) ==> exists|i: int|
            #[trigger] spec_zip_match_at(zip_entries_of(bytes@), binary_name@, i)
                && data@ == zip_entries_of(bytes@)[i].1,
{
    let entries = match zip_entries(bytes) {
        Ok(es) => es,
        Err(e) => {
            return Err(e);
        },
    };
    match select_zip_index(&entries, binary_name) {
        Some(i) => {
            let mut entries = entries;
            let ghost before = entries@;
            let entry = entries.remove(i);
            proof {
                assert(spec_entries_view(before)[i as int].1 == entry.data@);
            }
            Ok(Some(entry.data))
        },
        None => Ok(None),
    }
}

/// Pull the selected tar entry for `binary_name` out of the gzipped tar
/// archive `bytes`. `Ok(None)` reports that the archive parsed but held no
/// matching entry. As with the zip path, the container is parsed in full up
/// front, so corruption past the matching entry is reported rather than
/// ignored.
pub fn extract_tar_gz(bytes: &Vec<u8>, binary_name: &str) -> (r: Result<Option<Vec<u8>>, String>)
    ensures
        r is Ok <==> gunzip_ok(bytes@) && tar_parse_ok(gunzip_of(bytes@)),
        r is Ok ==> (r->Ok_0 is Some <==> spec_tar_has_match(
            tar_entries_of(gunzip_of(bytes@)),
            binary_name@,
        )),
        r matches Ok(Some(data)) ==> exists|i: int|
            #[trigger] spec_tar_match_at(tar_entries_of(gunzip_of(bytes@)), binary_name@, i)
                && data@ == tar_entries_of(gunzip_of(bytes@))[i].1,
{
    let plain = match gunzip(bytes) {
        Ok(b) => b,
        Err(e) => {
            return Err(e);
        },
    };
    let entries = match tar_entries(&plain) {
        Ok(es) => es,
        Err(e) => {
            return Err(e);
        },
    };
    match select_tar_index(&entries, binary_name) {
        Some(i) => {
            let mut entries = entries;
            let entry = entries.remove(i);
            Ok(Some(entry.data))
        },
        None => Ok(None),
    }
}

} // verus!
