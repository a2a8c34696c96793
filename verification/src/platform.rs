//! The static platform table: which release archive to fetch for each
//! supported operating-system family and CPU architecture, and the name of
//! the tool binary inside that archive.

use vstd::prelude::*;

verus! {

/// Operating-system family the host runs on.
#[derive(Clone, Copy, Debug, PartialEq, Eq, Structural)]
pub enum OsFamily {
    Windows,
    MacOs,
    Linux,
}

/// CPU architecture the host runs on.
#[derive(Clone, Copy, Debug, PartialEq, Eq, Structural)]
pub enum Arch {
    X86_64,
    Aarch64,
}

/// One of the six supported platform/architecture pairs.
#[derive(Clone, Copy, Debug, PartialEq, Eq, Structural)]
pub struct Platform {
    pub os: OsFamily,
    pub arch: Arch,
}

/// Which container format the release archive for a platform uses.
#[derive(Clone, Copy, Debug, PartialEq, Eq, Structural)]
pub enum ArchiveKind {
    Zip,
    TarGz,
}

/// Archive filename published for this platform.
pub open spec fn spec_archive_name(p: Platform) -> Seq<char> {
    match (p.os, p.arch) {
        (OsFamily::Windows, Arch::X86_64) => "uv-x86_64-pc-windows-msvc.zip"@,
        (OsFamily::Windows, Arch::Aarch64) => "uv-aarch64-pc-windows-msvc.zip"@,
        (OsFamily::MacOs, Arch::X86_64) => "uv-x86_64-apple-darwin.tar.gz"@,
        (OsFamily::MacOs, Arch::Aarch64) => "uv-aarch64-apple-darwin.tar.gz"@,
        (OsFamily::Linux, Arch::X86_64) => "uv-x86_64-unknown-linux-gnu.tar.gz"@,
        (OsFamily::Linux, Arch::Aarch64) => "uv-aarch64-unknown-linux-gnu.tar.gz"@,
    }
}

/// Name of the tool binary entry expected inside the archive.
pub open spec fn spec_binary_name(p: Platform) -> Seq<char> {
    match p.os {
        OsFamily::Windows => "uv.exe"@,
        OsFamily::MacOs => "uv"@,
        OsFamily::Linux => "uv"@,
    }
}

/// The Windows family ships zip archives; the POSIX-like families gzipped tar.
pub open spec fn spec_archive_kind(p: Platform) -> ArchiveKind {
    match p.os {
        OsFamily::Windows => ArchiveKind::Zip,
        OsFamily::MacOs => ArchiveKind::TarGz,
        OsFamily::Linux => ArchiveKind::TarGz,
    }
}

/// Resolve the platform pair to the archive filename to download and the
/// binary name to extract from it.
pub fn get_uv_archive_info(p: Platform) -> (r: (&'static str, &'static str))
    ensures
        r.0@ == spec_archive_name(p),
        r.1@ == spec_binary_name(p),
{
    match (p.os, p.arch) {
        (OsFamily::Windows, Arch::X86_64) => ("uv-x86_64-pc-windows-msvc.zip", "uv.exe"),
        (OsFamily::Windows, Arch::Aarch64) => ("uv-aarch64-pc-windows-msvc.zip", "uv.exe"),
        (OsFamily::MacOs, Arch::X86_64) => ("uv-x86_64-apple-darwin.tar.gz", "uv"),
        (OsFamily::MacOs, Arch::Aarch64) => ("uv-aarch64-apple-darwin.tar.gz", "uv"),
        (OsFamily::Linux, Arch::X86_64) => ("uv-x86_64-unknown-linux-gnu.tar.gz", "uv"),
        (OsFamily::Linux, Arch::Aarch64) => ("uv-aarch64-unknown-linux-gnu.tar.gz", "uv"),
    }
}

/// Container format of the release archive for this platform.
pub fn archive_kind(p: Platform) -> (r: ArchiveKind)
    ensures
        r == spec_archive_kind(p),
{
    match p.os {
        OsFamily::Windows => ArchiveKind::Zip,
        OsFamily::MacOs => ArchiveKind::TarGz,
        OsFamily::Linux => ArchiveKind::TarGz,
    }
}

/// Every supported platform resolves to a non-empty archive filename and a
/// non-empty binary name, and no two platforms share an archive filename.
pub proof fn lemma_archive_info_well_formed(p: Platform, q: Platform)
    ensures
        spec_archive_name(p).len() > 0,
        spec_binary_name(p).len() > 0,
        p != q ==> spec_archive_name(p) != spec_archive_name(q),
{
    reveal_strlit("uv-x86_64-pc-windows-msvc.zip");
    reveal_strlit("uv-aarch64-pc-windows-msvc.zip");
    reveal_strlit("uv-x86_64-apple-darwin.tar.gz");
    reveal_strlit("uv-aarch64-apple-darwin.tar.gz");
    reveal_strlit("uv-x86_64-unknown-linux-gnu.tar.gz");
    reveal_strlit("uv-aarch64-unknown-linux-gnu.tar.gz");
    reveal_strlit("uv.exe");
    reveal_strlit("uv");
    assert(spec_archive_name(p).len() > 0);
    assert(spec_binary_name(p).len() > 0);
    if p != q {
        // Names of equal length are told apart by the character after the
        // architecture prefix.
        assert("uv-x86_64-pc-windows-msvc.zip"@[10] != "uv-x86_64-apple-darwin.tar.gz"@[10]);
        assert("uv-aarch64-pc-windows-msvc.zip"@[11] != "uv-aarch64-apple-darwin.tar.gz"@[11]);
        assert(spec_archive_name(p) != spec_archive_name(q));
    }
}

} // verus!
