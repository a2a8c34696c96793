use engine_host::archive::{extract_tar_gz, extract_zip};
use engine_host::install::{download_url, extract_tool_binary, install_plan, uv_version, InstallError};
use engine_host::platform::{Arch, OsFamily, Platform};

fn make_zip(entries: &[(&str, &[u8])]) -> Vec<u8> {
    let mut w = zip::ZipWriter::new(std::io::Cursor::new(Vec::new()));
    let opts = zip::write::SimpleFileOptions::default();
    for (name, data) in entries {
        w.start_file(*name, opts).unwrap();
        std::io::Write::write_all(&mut w, data).unwrap();
    }
    w.finish().unwrap().into_inner()
}

fn make_tar_gz(entries: &[(&str, &[u8])]) -> Vec<u8> {
    let mut b = tar::Builder::new(Vec::new());
    for (name, data) in entries {
        let mut h = tar::Header::new_gnu();
        h.set_size(data.len() as u64);
        h.set_mode(0o644);
        h.set_cksum();
        b.append_data(&mut h, *name, *data).unwrap();
    }
    let tarball = b.into_inner().unwrap();
    let mut enc = flate2::write::GzEncoder::new(Vec::new(), flate2::Compression::default());
    std::io::Write::write_all(&mut enc, &tarball).unwrap();
    enc.finish().unwrap()
}

#[test]
fn zip_extraction_takes_matching_entry_and_ignores_rest() {
    let bytes = make_zip(&[("v1/uv.exe", b"B1"), ("README", b"B2")]);
    let got = extract_zip(&bytes, "uv.exe").unwrap();
    assert_eq!(got, Some(b"B1".to_vec()));
}

#[test]
fn zip_extraction_takes_first_of_several_matches() {
    let bytes = make_zip(&[("a/uv.exe", b"first"), ("b/uv.exe", b"second")]);
    let got = extract_zip(&bytes, "uv.exe").unwrap();
    assert_eq!(got, Some(b"first".to_vec()));
}

#[test]
fn zip_extraction_without_match_is_a_silent_no_op() {
    let bytes = make_zip(&[("README", b"docs"), ("LICENSE", b"text")]);
    let got = extract_zip(&bytes, "uv.exe").unwrap();
    assert_eq!(got, None);
}

#[test]
fn corrupt_zip_is_an_error() {
    let bytes = vec![0u8; 64];
    assert!(extract_zip(&bytes, "uv.exe").is_err());
}

#[test]
fn tar_extraction_never_matches_sibling_tool() {
    let bytes = make_tar_gz(&[("pkg/uv", b"B1"), ("pkg/uvx", b"B2")]);
    let got = extract_tar_gz(&bytes, "uv").unwrap();
    assert_eq!(got, Some(b"B1".to_vec()));

    // Even when the sibling comes first, it is never selected.
    let bytes = make_tar_gz(&[("pkg/uvx", b"B2"), ("pkg/uv", b"B1")]);
    let got = extract_tar_gz(&bytes, "uv").unwrap();
    assert_eq!(got, Some(b"B1".to_vec()));
}

#[test]
fn tar_extraction_without_match_is_a_silent_no_op() {
    let bytes = make_tar_gz(&[("pkg/uvx", b"B2"), ("pkg/README", b"docs")]);
    let got = extract_tar_gz(&bytes, "uv").unwrap();
    assert_eq!(got, None);
}

#[test]
fn corrupt_tar_gz_is_an_error() {
    let bytes = vec![1u8; 32];
    assert!(extract_tar_gz(&bytes, "uv").is_err());
}

#[test]
fn valid_gzip_around_corrupt_tar_is_an_error() {
    let mut enc = flate2::write::GzEncoder::new(Vec::new(), flate2::Compression::default());
    std::io::Write::write_all(&mut enc, &vec![7u8; 1024]).unwrap();
    let bytes = enc.finish().unwrap();
    assert!(extract_tar_gz(&bytes, "uv").is_err());
}

#[test]
fn tool_binary_dispatch_by_platform() {
    let zip_bytes = make_zip(&[("uv-x86_64-pc-windows-msvc/uv.exe", b"winbin")]);
    let windows = Platform { os: OsFamily::Windows, arch: Arch::X86_64 };
    assert_eq!(extract_tool_binary(&zip_bytes, windows).unwrap(), Some(b"winbin".to_vec()));

    let tar_bytes = make_tar_gz(&[("uv-x86_64-unknown-linux-gnu/uv", b"linbin")]);
    let linux = Platform { os: OsFamily::Linux, arch: Arch::X86_64 };
    assert_eq!(extract_tool_binary(&tar_bytes, linux).unwrap(), Some(b"linbin".to_vec()));

    match extract_tool_binary(&vec![0u8; 16], linux) {
        Err(InstallError::Archive { .. }) => {}
        _ => panic!("expected an archive error"),
    }
}

#[test]
fn download_url_layout() {
    assert_eq!(
        download_url("0.9.26", "uv-x86_64-unknown-linux-gnu.tar.gz"),
        "https://github.com/astral-sh/uv/releases/download/0.9.26/uv-x86_64-unknown-linux-gnu.tar.gz"
    );
    assert_eq!(uv_version(), "0.9.26");
}

#[test]
fn install_plan_for_platform() {
    let p = Platform { os: OsFamily::MacOs, arch: Arch::Aarch64 };
    let plan = install_plan(p, uv_version());
    assert_eq!(plan.archive_name, "uv-aarch64-apple-darwin.tar.gz");
    assert_eq!(plan.binary_name, "uv");
    assert_eq!(
        plan.url,
        "https://github.com/astral-sh/uv/releases/download/0.9.26/uv-aarch64-apple-darwin.tar.gz"
    );
}
