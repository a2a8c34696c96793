//! Installer planning: the release URL for a platform, and selection of the
//! tool binary out of the downloaded archive. The HTTP fetch itself and the
//! final file write stay with the caller.

use vstd::prelude::*;
use vstd::string::*;
use crate::platform::{
    Platform,
    ArchiveKind,
    archive_kind,
    get_uv_archive_info,
    spec_archive_kind,
    spec_archive_name,
    spec_binary_name,
};
use crate::archive::{
    extract_zip,
    extract_tar_gz,
    zip_entries_of,
    zip_parse_ok,
    tar_entries_of,
    tar_parse_ok,
    gunzip_of,
    gunzip_ok,
    spec_zip_has_match,
    spec_zip_match_at,
    spec_tar_has_match,
    spec_tar_match_at,
};

verus! {

/// The pinned release of the tool this supervisor installs.
pub fn uv_version() -> (r: &'static str)
    ensures
        r@ == "0.9.26"@,
{
    "0.9.26"
}

/// The release URL: fixed host and path, then the version, then the archive
/// filename.
pub open spec fn spec_download_url(version: Seq<char>, archive: Seq<char>) -> Seq<char> {
    "https://github.com/astral-sh/uv/releases/download/"@ + version + "/"@ + archive
}

/// Build the release URL for one archive of one version.
pub fn download_url(version: &str, archive_name: &str) -> (r: String)
    ensures
        r@ == spec_download_url(version@, archive_name@),
{
    let mut s = String::from_str("https://github.com/astral-sh/uv/releases/download/");
    s.append(version);
    s.append("/");
    s.append(archive_name);
    s
}

/// Why an installation failed.
#[derive(Debug)]
pub enum InstallError {
    /// The HTTP fetch failed: a non-success status if one was received,
    /// and a description.
    Download { status: Option<u16>, detail: String },
    /// The downloaded archive could not be parsed.
    Archive { detail: String },
}

/// Everything the downloader needs for one platform and version.
pub struct InstallPlan {
    pub url: String,
    pub archive_name: String,
    pub binary_name: String,
}

/// Resolve the platform to its archive, binary name and download URL.
pub fn install_plan(p: Platform, version: &str) -> (r: InstallPlan)
    ensures
        r.archive_name@ == spec_archive_name(p),
        r.binary_name@ == spec_binary_name(p),
        r.url@ == spec_download_url(version@, spec_archive_name(p)),
{
    let (archive_name, binary_name) = get_uv_archive_info(p);
    InstallPlan {
        url: download_url(version, archive_name),
        archive_name: String::from_str(archive_name),
        binary_name: String::from_str(binary_name),
    }
}

/// Select the tool binary's bytes out of a downloaded release archive, by
/// the container format the platform uses. `Ok(None)` reports a parsed
/// archive with no matching entry.
pub fn extract_tool_binary(bytes: &Vec<u8>, p: Platform) -> (r: Result<
    Option<Vec<u8>>,
    InstallError,
>)
    ensures
        spec_archive_kind(p) is Zip ==> (r is Ok <==> zip_parse_ok(bytes@)),
        spec_archive_kind(p) is TarGz ==> (r is Ok <==> gunzip_ok(bytes@) && tar_parse_ok(
            gunzip_of(bytes@),
        )),
        spec_archive_kind(p) is Zip && r is Ok ==> (r->Ok_0 is Some <==> spec_zip_has_match(
            zip_entries_of(bytes@),
            spec_binary_name(p),
        )),
        spec_archive_kind(p) is Zip ==> (r matches Ok(Some(data)) ==> exists|i: int|
            #[trigger] spec_zip_match_at(zip_entries_of(bytes@), spec_binary_name(p), i)
                && data@ == zip_entries_of(bytes@)[i].1),
        spec_archive_kind(p) is TarGz && r is Ok ==> (r->Ok_0 is Some <==> spec_tar_has_match(
            tar_entries_of(gunzip_of(bytes@)),
            spec_binary_name(p),
        )),
        spec_archive_kind(p) is TarGz ==> (r matches Ok(Some(data)) ==> exists|i: int|
            #[trigger] spec_tar_match_at(tar_entries_of(gunzip_of(bytes@)), spec_binary_name(p), i)
                && data@ == tar_entries_of(gunzip_of(bytes@))[i].1),
{
    let (_, binary_name) = get_uv_archive_info(p);
    match archive_kind(p) {
        ArchiveKind::Zip => match extract_zip(bytes, binary_name) {
            Ok(found) => Ok(found),
            Err(detail) => Err(InstallError::Archive { detail }),
        },
        ArchiveKind::TarGz => match extract_tar_gz(bytes, binary_name) {
            Ok(found) => Ok(found),
            Err(detail) => Err(InstallError::Archive { detail }),
        },
    }
}

} // verus!
