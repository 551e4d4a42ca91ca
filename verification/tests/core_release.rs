use std::time::Duration;

use std::io::Write;

use sbtui::core_release::{
    archive_name, binary_name, checksum_verdict, core_files, core_platform, entry_role,
    file_name_of, first_word, ArchiveError, UnpackError,
    release_base, restart_backoff, restart_backoff_secs, sha256_hex, ChecksumVerdict,
    EntryRole, GITHUB_LATEST,
};

#[test]
fn restart_backoff_grows_then_caps() {
    assert_eq!(restart_backoff(0), Duration::from_secs(2));
    assert_eq!(restart_backoff(1), Duration::from_secs(4));
    assert_eq!(restart_backoff(2), Duration::from_secs(8));
    assert_eq!(restart_backoff(3), Duration::from_secs(16));
    assert_eq!(restart_backoff(4), Duration::from_secs(30));
    assert_eq!(restart_backoff(10), Duration::from_secs(30));
    assert_eq!(restart_backoff_secs(u32::MAX - 1), 30);
}

#[test]
fn core_platform_matches_the_host_architecture() {
    assert_eq!(core_platform("windows", "x86_64"), "windows-amd64");
    assert_eq!(core_platform("macos", "aarch64"), "darwin-arm64");
    assert_eq!(core_platform("linux", "x86_64"), "linux-amd64");
    assert_eq!(core_platform("freebsd", "riscv64"), "freebsd-riscv64");
}

#[test]
fn the_release_urls_name_the_archive() {
    assert_eq!(release_base(""), format!("{GITHUB_LATEST}/download"));
    assert_eq!(release_base("  "), format!("{GITHUB_LATEST}/download"));
    assert_eq!(
        release_base("v1.12.0"),
        "https://github.com/SagerNet/sing-box/releases/download/v1.12.0"
    );
    assert_eq!(archive_name("linux-amd64"), "sing-box-linux-amd64.zip");
    assert_eq!(binary_name(true), "sing-box.exe");
    assert_eq!(binary_name(false), "sing-box");
}

#[test]
fn only_the_core_and_the_windows_driver_leave_the_archive() {
    assert_eq!(entry_role("sing-box", false), EntryRole::Binary);
    assert_eq!(entry_role("sing-box.exe", true), EntryRole::Binary);
    assert_eq!(entry_role("WinTun.DLL", true), EntryRole::Wintun);
    assert_eq!(entry_role("wintun.dll", false), EntryRole::Skip);
    assert_eq!(entry_role("LICENSE", false), EntryRole::Skip);
}

#[test]
fn the_digest_is_sha256_in_lower_hex() {
    assert_eq!(
        sha256_hex(b"abc"),
        "ba7816bf8f01cfea414140de5dae2223b00361a396177a9cb410ff61f20015ad"
    );
    assert_eq!(first_word("  ABC def\n"), "ABC");
}

#[test]
fn a_checksum_mismatch_is_refused_and_a_missing_one_is_not() {
    let good = "BA7816BF8F01CFEA414140DE5DAE2223B00361A396177A9CB410FF61F20015AD  sing-box.zip";
    assert_eq!(checksum_verdict(b"abc", good), ChecksumVerdict::Match);
    let bad = "0000000000000000000000000000000000000000000000000000000000000000";
    assert!(matches!(checksum_verdict(b"abc", bad), ChecksumVerdict::Mismatch { .. }));
    assert_eq!(checksum_verdict(b"abc", "not a digest"), ChecksumVerdict::Unverifiable);
    assert_eq!(checksum_verdict(b"abc", ""), ChecksumVerdict::Unverifiable);
}

fn zip_of(entries: &[(&str, &[u8])]) -> Vec<u8> {
    let mut writer = zip::ZipWriter::new(std::io::Cursor::new(Vec::new()));
    for (name, data) in entries {
        let options = zip::write::SimpleFileOptions::default()
            .compression_method(zip::CompressionMethod::Deflated);
        writer.start_file(*name, options).unwrap();
        writer.write_all(data).unwrap();
    }
    writer.finish().unwrap().into_inner()
}

#[test]
fn core_files_keeps_the_binary_and_skips_the_rest() {
    let bytes = zip_of(&[
        ("sing-box-1.12.0-linux-amd64/LICENSE", b"license"),
        ("sing-box-1.12.0-linux-amd64/sing-box", b"\x7fELF core"),
        ("sing-box-1.12.0-linux-amd64/wintun.dll", b"driver"),
    ]);
    let files = core_files(&bytes, false).unwrap();
    assert_eq!(files.len(), 1);
    assert_eq!(files[0].file_name, "sing-box");
    assert_eq!(files[0].role, EntryRole::Binary);
    assert_eq!(files[0].data, b"\x7fELF core".to_vec());
}

#[test]
fn core_files_takes_wintun_on_windows_in_archive_order() {
    let bytes = zip_of(&[
        ("pkg/WinTun.DLL", b"driver"),
        ("pkg/readme.md", b"text"),
        ("pkg/sing-box.exe", b"MZ core"),
    ]);
    let files = core_files(&bytes, true).unwrap();
    assert_eq!(files.len(), 2);
    assert_eq!(files[0].file_name, "WinTun.DLL");
    assert_eq!(files[0].role, EntryRole::Wintun);
    assert_eq!(files[0].data, b"driver".to_vec());
    assert_eq!(files[1].file_name, "sing-box.exe");
    assert_eq!(files[1].role, EntryRole::Binary);
    assert_eq!(files[1].data, b"MZ core".to_vec());
}

#[test]
fn core_files_reports_a_missing_binary() {
    let bytes = zip_of(&[("pkg/sing-box.exe", b"MZ core"), ("pkg/LICENSE", b"license")]);
    assert_eq!(
        core_files(&bytes, false),
        Err(UnpackError::Incomplete(ArchiveError::MissingBinary))
    );
}

#[test]
fn core_files_reports_a_missing_wintun_on_windows() {
    let bytes = zip_of(&[("pkg/sing-box.exe", b"MZ core")]);
    assert_eq!(
        core_files(&bytes, true),
        Err(UnpackError::Incomplete(ArchiveError::MissingWintun))
    );
}

#[test]
fn core_files_refuses_bytes_that_are_no_zip() {
    assert_eq!(core_files(b"not an archive", false), Err(UnpackError::NotZip));
    assert_eq!(core_files(&[], true), Err(UnpackError::NotZip));
}

#[test]
fn file_name_of_takes_the_last_part() {
    assert_eq!(file_name_of("dir/sing-box", false), "sing-box");
    assert_eq!(file_name_of("sing-box", false), "sing-box");
    assert_eq!(file_name_of("a/..", false), "");
    assert_eq!(file_name_of("a/./", false), "a");
    assert_eq!(file_name_of("dir/", false), "dir");
    assert_eq!(file_name_of(".", false), "");
    assert_eq!(file_name_of("", false), "");
    assert_eq!(file_name_of("a\\b", true), "b");
    assert_eq!(file_name_of("a\\b", false), "a\\b");
}
