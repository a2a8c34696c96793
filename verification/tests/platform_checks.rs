use engine_host::platform::{archive_kind, get_uv_archive_info, Arch, ArchiveKind, OsFamily, Platform};

fn all_platforms() -> Vec<Platform> {
    let mut v = Vec::new();
    for os in [OsFamily::Windows, OsFamily::MacOs, OsFamily::Linux] {
        for arch in [Arch::X86_64, Arch::Aarch64] {
            v.push(Platform { os, arch });
        }
    }
    v
}

#[test]
fn archive_info_is_nonempty_and_distinct_for_all_six_pairs() {
    let platforms = all_platforms();
    assert_eq!(platforms.len(), 6);
    let mut names: Vec<&str> = Vec::new();
    for p in platforms {
        let (archive, binary) = get_uv_archive_info(p);
        assert!(!archive.is_empty());
        assert!(!binary.is_empty());
        assert!(!names.contains(&archive));
        names.push(archive);
    }
}

#[test]
fn archive_info_exact_values() {
    assert_eq!(
        get_uv_archive_info(Platform { os: OsFamily::Windows, arch: Arch::X86_64 }),
        ("uv-x86_64-pc-windows-msvc.zip", "uv.exe")
    );
    assert_eq!(
        get_uv_archive_info(Platform { os: OsFamily::Windows, arch: Arch::Aarch64 }),
        ("uv-aarch64-pc-windows-msvc.zip", "uv.exe")
    );
    assert_eq!(
        get_uv_archive_info(Platform { os: OsFamily::MacOs, arch: Arch::X86_64 }),
        ("uv-x86_64-apple-darwin.tar.gz", "uv")
    );
    assert_eq!(
        get_uv_archive_info(Platform { os: OsFamily::MacOs, arch: Arch::Aarch64 }),
        ("uv-aarch64-apple-darwin.tar.gz", "uv")
    );
    assert_eq!(
        get_uv_archive_info(Platform { os: OsFamily::Linux, arch: Arch::X86_64 }),
        ("uv-x86_64-unknown-linux-gnu.tar.gz", "uv")
    );
    assert_eq!(
        get_uv_archive_info(Platform { os: OsFamily::Linux, arch: Arch::Aarch64 }),
        ("uv-aarch64-unknown-linux-gnu.tar.gz", "uv")
    );
}

#[test]
fn windows_family_uses_zip_others_tar_gz() {
    for p in all_platforms() {
        let kind = archive_kind(p);
        match p.os {
            OsFamily::Windows => assert_eq!(kind, ArchiveKind::Zip),
            _ => assert_eq!(kind, ArchiveKind::TarGz),
        }
    }
}
